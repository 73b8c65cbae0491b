use vstd::prelude::*;

use crate::accounts::{display_accounts, spec_indent, spec_render_items};
use crate::format::{
    format_type, join_strings, spec_dec, spec_format_type, spec_join, str_views, u64_to_string,
};
use crate::model::{IdlDocument, IdlField, IdlInstruction, IdlInstructionAccountItem, IdlType};

verus! {

/// The report's leading lines: program name and version, address, and the
/// instruction count.
pub open spec fn spec_header(doc: IdlDocument) -> Seq<char> {
    "\nProgram: "@ + doc.metadata.name@ + " (v"@ + doc.metadata.version@ + ")\n"@ + "Address: "@
        + doc.address@ + "\n"@ + "\nInstructions ("@ + spec_dec(doc.instructions@.len())
        + "):\n"@
}

/// One documentation line per entry, indented under the description heading.
pub open spec fn spec_doc_lines(docs: Seq<String>) -> Seq<char>
    decreases docs.len(),
{
    if docs.len() == 0 {
        Seq::empty()
    } else {
        "     "@ + docs[0]@ + "\n"@ + spec_doc_lines(docs.drop_first())
    }
}

/// The description section, or nothing when the instruction has no docs.
pub open spec fn spec_docs_section(docs: Seq<String>) -> Seq<char> {
    if docs.len() == 0 {
        Seq::empty()
    } else {
        "   Description:\n"@ + spec_doc_lines(docs)
    }
}

/// One argument's line: its name and formatted type, with its docs joined by
/// spaces on a subordinate line when present.
pub open spec fn spec_arg_line(a: IdlField) -> Seq<char> {
    "     "@ + a.name@ + " ("@ + spec_format_type(a.ty) + ")\n"@ + (if a.docs@.len() == 0 {
        Seq::<char>::empty()
    } else {
        "       "@ + spec_join(str_views(a.docs@), " "@) + "\n"@
    })
}

/// The argument lines of an instruction, in order.
pub open spec fn spec_arg_lines(args: Seq<IdlField>) -> Seq<char>
    decreases args.len(),
{
    if args.len() == 0 {
        Seq::empty()
    } else {
        spec_arg_line(args[0]) + spec_arg_lines(args.drop_first())
    }
}

/// The arguments section, with an explicit sentinel when the instruction
/// takes none.
pub open spec fn spec_args_section(args: Seq<IdlField>) -> Seq<char> {
    if args.len() == 0 {
        "   Arguments: None\n"@
    } else {
        "   Arguments:\n"@ + spec_arg_lines(args)
    }
}

/// The accounts section: the rendered account tree, or a sentinel line when
/// the instruction requires no accounts.
pub open spec fn spec_accounts_section(items: Seq<IdlInstructionAccountItem>) -> Seq<char> {
    "   Accounts:\n"@ + (if items.len() == 0 {
        "     None\n"@
    } else {
        spec_render_items(items, spec_indent(3))
    })
}

/// The formatted return type, or nothing when the instruction returns none.
pub open spec fn spec_returns_section(r: Option<IdlType>) -> Seq<char> {
    match r {
        Some(t) => "   Returns: "@ + spec_format_type(t) + "\n"@,
        None => Seq::empty(),
    }
}

/// Everything a full block shows beyond the numbered name.
pub open spec fn spec_details(ins: IdlInstruction) -> Seq<char> {
    spec_docs_section(ins.docs@) + spec_args_section(ins.args@) + spec_accounts_section(
        ins.accounts@,
    ) + spec_returns_section(ins.returns)
}

/// One instruction's block: the numbered name line, followed by the details
/// unless only names were asked for.
pub open spec fn spec_block(idx: nat, ins: IdlInstruction, names_only: bool) -> Seq<char> {
    "\n"@ + spec_dec(idx + 1) + ". "@ + ins.name@ + "\n"@ + (if names_only {
        Seq::<char>::empty()
    } else {
        spec_details(ins)
    })
}

/// The blocks of the instructions numbered from the given index on.
pub open spec fn spec_blocks(instrs: Seq<IdlInstruction>, idx: nat, names_only: bool) -> Seq<char>
    decreases instrs.len(),
{
    if instrs.len() == 0 {
        Seq::empty()
    } else {
        spec_block(idx, instrs[0], names_only) + spec_blocks(
            instrs.drop_first(),
            idx + 1,
            names_only,
        )
    }
}

/// The whole report: the header, then one block per instruction in document
/// order, numbered from one.
pub open spec fn spec_report(doc: IdlDocument, names_only: bool) -> Seq<char> {
    spec_header(doc) + spec_blocks(doc.instructions@, 0, names_only)
}

fn doc_lines_from(docs: &Vec<String>, i: usize) -> (r: String)
    requires
        i <= docs@.len(),
    ensures
        r@ == spec_doc_lines(docs@.skip(i as int)),
    decreases docs@.len() - i,
{
    if i == docs.len() {
        proof {
            assert(docs@.skip(i as int) =~= Seq::<String>::empty());
        }
        String::new()
    } else {
        let mut s = String::from_str("     ");
        s.append(docs[i].as_str());
        s.append("\n");
        let rest = doc_lines_from(docs, i + 1);
        s.append(rest.as_str());
        proof {
            let vs = docs@.skip(i as int);
            assert(vs[0] == docs@[i as int]);
            assert(vs.drop_first() =~= docs@.skip(i as int + 1));
        }
        s
    }
}

fn docs_section(docs: &Vec<String>) -> (r: String)
    ensures
        r@ == spec_docs_section(docs@),
{
    if docs.len() == 0 {
        String::new()
    } else {
        let mut s = String::from_str("   Description:\n");
        let lines = doc_lines_from(docs, 0);
        proof {
            assert(docs@.skip(0) =~= docs@);
        }
        s.append(lines.as_str());
        s
    }
}

fn arg_line(a: &IdlField) -> (r: String)
    ensures
        r@ == spec_arg_line(*a),
{
    let mut s = String::from_str("     ");
    s.append(a.name.as_str());
    s.append(" (");
    let t = format_type(&a.ty);
    s.append(t.as_str());
    s.append(")\n");
    if a.docs.len() > 0 {
        s.append("       ");
        let joined = join_strings(&a.docs, " ");
        s.append(joined.as_str());
        s.append("\n");
        proof {
            assert(s@ =~= spec_arg_line(*a));
        }
    } else {
        proof {
            assert(s@ =~= spec_arg_line(*a));
        }
    }
    s
}

fn arg_lines_from(args: &Vec<IdlField>, i: usize) -> (r: String)
    requires
        i <= args@.len(),
    ensures
        r@ == spec_arg_lines(args@.skip(i as int)),
    decreases args@.len() - i,
{
    if i == args.len() {
        proof {
            assert(args@.skip(i as int) =~= Seq::<IdlField>::empty());
        }
        String::new()
    } else {
        let mut s = arg_line(&args[i]);
        let rest = arg_lines_from(args, i + 1);
        s.append(rest.as_str());
        proof {
            let vs = args@.skip(i as int);
            assert(vs[0] == args@[i as int]);
            assert(vs.drop_first() =~= args@.skip(i as int + 1));
        }
        s
    }
}

fn args_section(args: &Vec<IdlField>) -> (r: String)
    ensures
        r@ == spec_args_section(args@),
{
    if args.len() == 0 {
        String::from_str("   Arguments: None\n")
    } else {
        let mut s = String::from_str("   Arguments:\n");
        let lines = arg_lines_from(args, 0);
        proof {
            assert(args@.skip(0) =~= args@);
        }
        s.append(lines.as_str());
        s
    }
}

fn accounts_section(items: &Vec<IdlInstructionAccountItem>) -> (r: String)
    ensures
        r@ == spec_accounts_section(items@),
{
    let mut s = String::from_str("   Accounts:\n");
    if items.len() == 0 {
        s.append("     None\n");
    } else {
        let tree = display_accounts(items, 1);
        s.append(tree.as_str());
    }
    s
}

fn returns_section(r: &Option<IdlType>) -> (res: String)
    ensures
        res@ == spec_returns_section(*r),
{
    match r {
        Some(t) => {
            let mut s = String::from_str("   Returns: ");
            let ts = format_type(t);
            s.append(ts.as_str());
            s.append("\n");
            s
        },
        None => String::new(),
    }
}

fn instruction_details(ins: &IdlInstruction) -> (r: String)
    ensures
        r@ == spec_details(*ins),
{
    let mut s = docs_section(&ins.docs);
    let args = args_section(&ins.args);
    s.append(args.as_str());
    let accounts = accounts_section(&ins.accounts);
    s.append(accounts.as_str());
    let ret = returns_section(&ins.returns);
    s.append(ret.as_str());
    s
}

fn instruction_block(idx: usize, ins: &IdlInstruction, names_only: bool) -> (r: String)
    requires
        idx < usize::MAX,
    ensures
        r@ == spec_block(idx as nat, *ins, names_only),
{
    let mut s = String::from_str("\n");
    let num = u64_to_string((idx + 1) as u64);
    s.append(num.as_str());
    s.append(". ");
    s.append(ins.name.as_str());
    s.append("\n");
    if !names_only {
        let det = instruction_details(ins);
        s.append(det.as_str());
        proof {
            assert(s@ =~= spec_block(idx as nat, *ins, names_only));
        }
    } else {
        proof {
            assert(s@ =~= spec_block(idx as nat, *ins, names_only));
        }
    }
    s
}

/// Produces the full human-readable instruction report: the header, then a
/// numbered block per instruction in document order; with names only asked
/// for, each block is just the numbered name line.
pub fn display_instructions(doc: &IdlDocument, names_only: bool) -> (r: String)
    ensures
        r@ == spec_report(*doc, names_only),
{
    let mut s = String::from_str("\nProgram: ");
    s.append(doc.metadata.name.as_str());
    s.append(" (v");
    s.append(doc.metadata.version.as_str());
    s.append(")\n");
    s.append("Address: ");
    s.append(doc.address.as_str());
    s.append("\n");
    s.append("\nInstructions (");
    let n = u64_to_string(doc.instructions.len() as u64);
    s.append(n.as_str());
    s.append("):\n");
    proof {
        assert(s@ =~= spec_header(*doc));
        assert(doc.instructions@.skip(0) =~= doc.instructions@);
    }
    let mut i: usize = 0;
    while i < doc.instructions.len()
        invariant
            i <= doc.instructions@.len(),
            s@ + spec_blocks(doc.instructions@.skip(i as int), i as nat, names_only)
                == spec_report(*doc, names_only),
        decreases doc.instructions@.len() - i,
    {
        let block = instruction_block(i, &doc.instructions[i], names_only);
        proof {
            let rem = doc.instructions@.skip(i as int);
            assert(rem[0] == doc.instructions@[i as int]);
            assert(rem.drop_first() =~= doc.instructions@.skip(i as int + 1));
            assert((s@ + block@) + spec_blocks(
                doc.instructions@.skip(i as int + 1),
                i as nat + 1,
                names_only,
            ) =~= s@ + (block@ + spec_blocks(
                doc.instructions@.skip(i as int + 1),
                i as nat + 1,
                names_only,
            )));
        }
        s.append(block.as_str());
        i = i + 1;
    }
    proof {
        assert(doc.instructions@.skip(i as int) =~= Seq::<IdlInstruction>::empty());
        assert(s@ + Seq::<char>::empty() =~= s@);
    }
    s
}

/// One numbered name line, as the names-only report shows it.
pub open spec fn spec_name_line(idx: nat, ins: IdlInstruction) -> Seq<char> {
    "\n"@ + spec_dec(idx + 1) + ". "@ + ins.name@ + "\n"@
}

/// The numbered name lines of the instructions from the given index on.
pub open spec fn spec_name_lines(instrs: Seq<IdlInstruction>, idx: nat) -> Seq<char>
    decreases instrs.len(),
{
    if instrs.len() == 0 {
        Seq::empty()
    } else {
        spec_name_line(idx, instrs[0]) + spec_name_lines(instrs.drop_first(), idx + 1)
    }
}

proof fn lemma_blocks_names_only(instrs: Seq<IdlInstruction>, idx: nat)
    ensures
        spec_blocks(instrs, idx, true) == spec_name_lines(instrs, idx),
    decreases instrs.len(),
{
    if instrs.len() > 0 {
        lemma_blocks_names_only(instrs.drop_first(), idx + 1);
        assert(spec_block(idx, instrs[0], true) =~= spec_name_line(idx, instrs[0]));
    }
}

/// With names only requested, the report omits every instruction's docs,
/// arguments, accounts and return type: it is exactly the header followed by
/// the numbered name lines, in document order.
pub proof fn lemma_names_only_report(doc: IdlDocument)
    ensures
        spec_report(doc, true) == spec_header(doc) + spec_name_lines(doc.instructions@, 0),
{
    lemma_blocks_names_only(doc.instructions@, 0);
}

} // verus!
