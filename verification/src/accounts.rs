use vstd::prelude::*;

use crate::format::{spec_dec, spec_join, str_views, u64_to_string};
use crate::model::{IdlInstructionAccount, IdlInstructionAccountItem, IdlPda};

verus! {

/// A two-space unit of indentation repeated for each nesting level.
pub open spec fn spec_indent(n: nat) -> Seq<char>
    decreases n,
{
    if n == 0 {
        Seq::empty()
    } else {
        spec_indent((n - 1) as nat) + "  "@
    }
}

/// The attribute names that apply to a leaf account, in the fixed order
/// writable, signer, optional.
pub open spec fn spec_attrs(acc: IdlInstructionAccount) -> Seq<Seq<char>> {
    (if acc.writable {
        seq!["writable"@]
    } else {
        Seq::empty()
    }) + (if acc.signer {
        seq!["signer"@]
    } else {
        Seq::empty()
    }) + (if acc.optional {
        seq!["optional"@]
    } else {
        Seq::empty()
    })
}

/// The parenthesized attribute list of a leaf account, or nothing when no
/// attribute applies.
pub open spec fn spec_attr_suffix(acc: IdlInstructionAccount) -> Seq<char> {
    if spec_attrs(acc).len() == 0 {
        Seq::empty()
    } else {
        " ("@ + spec_join(spec_attrs(acc), ", "@) + ")"@
    }
}

/// The subordinate line reporting a derived address's seed count, or nothing
/// when the account has none.
pub open spec fn spec_pda_line(pda: Option<IdlPda>, indent: Seq<char>) -> Seq<char> {
    match pda {
        Some(p) => indent + "  PDA with "@ + spec_dec(p.seed_count as nat) + " seeds\n"@,
        None => Seq::empty(),
    }
}

/// The rendered lines of one account entry at the given indentation: a leaf
/// renders its name, attributes and seed line; a group renders its name and
/// then its children one level deeper.
pub open spec fn spec_render_item(item: IdlInstructionAccountItem, indent: Seq<char>) -> Seq<char>
    decreases item,
{
    match item {
        IdlInstructionAccountItem::Single(acc) => indent + acc.name@ + spec_attr_suffix(acc)
            + "\n"@ + spec_pda_line(acc.pda, indent),
        IdlInstructionAccountItem::Composite { name, accounts } => indent + name@ + ":\n"@
            + spec_render_items(accounts@, indent + "  "@),
    }
}

/// The rendered lines of a sequence of account entries, in order.
pub open spec fn spec_render_items(items: Seq<IdlInstructionAccountItem>, indent: Seq<char>) -> Seq<
    char,
>
    decreases items,
{
    if items.len() == 0 {
        Seq::empty()
    } else {
        spec_render_item(items[0], indent) + spec_render_items(items.drop_first(), indent)
    }
}

fn attr_list(acc: &IdlInstructionAccount) -> (r: Vec<String>)
    ensures
        str_views(r@) == spec_attrs(*acc),
{
    let mut attrs: Vec<String> = Vec::new();
    if acc.writable {
        attrs.push(String::from_str("writable"));
    }
    if acc.signer {
        attrs.push(String::from_str("signer"));
    }
    if acc.optional {
        attrs.push(String::from_str("optional"));
    }
    proof {
        assert(str_views(attrs@) =~= spec_attrs(*acc));
    }
    attrs
}

fn render_single(acc: &IdlInstructionAccount, indent: &str) -> (r: String)
    ensures
        r@ == spec_render_item(IdlInstructionAccountItem::Single(*acc), indent@),
{
    let mut s = String::from_str(indent);
    s.append(acc.name.as_str());
    let attrs = attr_list(acc);
    if attrs.len() > 0 {
        s.append(" (");
        let joined = join_attrs(&attrs);
        s.append(joined.as_str());
        s.append(")");
    }
    s.append("\n");
    match &acc.pda {
        Some(p) => {
            s.append(indent);
            s.append("  PDA with ");
            let n = u64_to_string(p.seed_count);
            s.append(n.as_str());
            s.append(" seeds\n");
            proof {
                assert(s@ =~= spec_render_item(IdlInstructionAccountItem::Single(*acc), indent@));
            }
        },
        None => {
            proof {
                assert(s@ =~= spec_render_item(IdlInstructionAccountItem::Single(*acc), indent@));
            }
        },
    }
    s
}

fn join_attrs(attrs: &Vec<String>) -> (r: String)
    ensures
        r@ == spec_join(str_views(attrs@), ", "@),
{
    crate::format::join_strings(attrs, ", ")
}

fn render_item(item: &IdlInstructionAccountItem, indent: &str) -> (r: String)
    ensures
        r@ == spec_render_item(*item, indent@),
    decreases *item,
{
    match item {
        IdlInstructionAccountItem::Single(acc) => render_single(acc, indent),
        IdlInstructionAccountItem::Composite { name, accounts } => {
            let mut s = String::from_str(indent);
            s.append(name.as_str());
            s.append(":\n");
            let mut child_indent = String::from_str(indent);
            child_indent.append("  ");
            let children = render_items_from(accounts, 0, child_indent.as_str());
            proof {
                assert(accounts@.skip(0) =~= accounts@);
            }
            s.append(children.as_str());
            s
        },
    }
}

fn render_items_from(items: &Vec<IdlInstructionAccountItem>, i: usize, indent: &str) -> (r: String)
    requires
        i <= items@.len(),
    ensures
        r@ == spec_render_items(items@.skip(i as int), indent@),
    decreases items@, items@.len() - i,
{
    if i == items.len() {
        proof {
            assert(items@.skip(i as int) =~= Seq::<IdlInstructionAccountItem>::empty());
        }
        String::new()
    } else {
        let mut s = render_item(&items[i], indent);
        let rest = render_items_from(items, i + 1, indent);
        s.append(rest.as_str());
        proof {
            let vs = items@.skip(i as int);
            assert(vs[0] == items@[i as int]);
            assert(vs.drop_first() =~= items@.skip(i as int + 1));
        }
        s
    }
}

fn make_indent(n: usize) -> (r: String)
    ensures
        r@ == spec_indent(n as nat),
{
    let mut s = String::new();
    let mut i: usize = 0;
    while i < n
        invariant
            i <= n,
            s@ == spec_indent(i as nat),
        decreases n - i,
    {
        s.append("  ");
        i = i + 1;
    }
    s
}

/// Renders an ordered account list as an indented textual tree, two spaces
/// per level starting two levels in of the given depth, recursing into
/// composite groups and preserving sibling order.
pub fn display_accounts(accounts: &Vec<IdlInstructionAccountItem>, depth: usize) -> (r: String)
    requires
        depth <= usize::MAX - 2,
    ensures
        r@ == spec_render_items(accounts@, spec_indent(depth as nat + 2)),
{
    let indent = make_indent(depth + 2);
    let r = render_items_from(accounts, 0, indent.as_str());
    proof {
        assert(accounts@.skip(0) =~= accounts@);
    }
    r
}

} // verus!
