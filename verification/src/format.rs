use vstd::prelude::*;

use crate::model::{IdlArrayLen, IdlGenericArg, IdlType};

verus! {

/// The character for one decimal digit value.
pub open spec fn digit_char(d: nat) -> char {
    ((48 + d) as u8) as char
}

/// The decimal rendering of a natural number, most significant digit first.
pub open spec fn spec_dec(n: nat) -> Seq<char>
    decreases n,
{
    if n < 10 {
        seq![digit_char(n)]
    } else {
        spec_dec(n / 10) + seq![digit_char(n % 10)]
    }
}

fn digit_str(d: u64) -> (r: &'static str)
    requires
        d < 10,
    ensures
        r@ == seq![digit_char(d as nat)],
{
    if d == 0 {
        proof { reveal_strlit("0"); }
        assert("0"@ =~= seq![digit_char(0)]);
        "0"
    } else if d == 1 {
        proof { reveal_strlit("1"); }
        assert("1"@ =~= seq![digit_char(1)]);
        "1"
    } else if d == 2 {
        proof { reveal_strlit("2"); }
        assert("2"@ =~= seq![digit_char(2)]);
        "2"
    } else if d == 3 {
        proof { reveal_strlit("3"); }
        assert("3"@ =~= seq![digit_char(3)]);
        "3"
    } else if d == 4 {
        proof { reveal_strlit("4"); }
        assert("4"@ =~= seq![digit_char(4)]);
        "4"
    } else if d == 5 {
        proof { reveal_strlit("5"); }
        assert("5"@ =~= seq![digit_char(5)]);
        "5"
    } else if d == 6 {
        proof { reveal_strlit("6"); }
        assert("6"@ =~= seq![digit_char(6)]);
        "6"
    } else if d == 7 {
        proof { reveal_strlit("7"); }
        assert("7"@ =~= seq![digit_char(7)]);
        "7"
    } else if d == 8 {
        proof { reveal_strlit("8"); }
        assert("8"@ =~= seq![digit_char(8)]);
        "8"
    } else {
        proof { reveal_strlit("9"); }
        assert("9"@ =~= seq![digit_char(9)]);
        "9"
    }
}

/// Renders a number in decimal, as the reports do.
pub fn u64_to_string(n: u64) -> (r: String)
    ensures
        r@ == spec_dec(n as nat),
    decreases n,
{
    if n < 10 {
        String::from_str(digit_str(n))
    } else {
        let mut s = u64_to_string(n / 10);
        s.append(digit_str(n % 10));
        s
    }
}

/// The items joined by the separator, in order, nothing added at the ends.
pub open spec fn spec_join(items: Seq<Seq<char>>, sep: Seq<char>) -> Seq<char>
    decreases items.len(),
{
    if items.len() == 0 {
        Seq::empty()
    } else if items.len() == 1 {
        items[0]
    } else {
        items[0] + sep + spec_join(items.drop_first(), sep)
    }
}

/// The views of a sequence of owned strings.
pub open spec fn str_views(items: Seq<String>) -> Seq<Seq<char>> {
    items.map_values(|s: String| s@)
}

fn join_from(items: &Vec<String>, i: usize, sep: &str) -> (r: String)
    requires
        i <= items@.len(),
    ensures
        r@ == spec_join(str_views(items@).skip(i as int), sep@),
    decreases items@.len() - i,
{
    if i == items.len() {
        assert(str_views(items@).skip(i as int) =~= Seq::empty());
        String::new()
    } else if i + 1 == items.len() {
        assert(str_views(items@).skip(i as int) =~= seq![items@[i as int]@]);
        items[i].clone()
    } else {
        let mut s = items[i].clone();
        s.append(sep);
        let rest = join_from(items, i + 1, sep);
        s.append(rest.as_str());
        proof {
            let vs = str_views(items@).skip(i as int);
            assert(vs[0] == items@[i as int]@);
            assert(vs.drop_first() =~= str_views(items@).skip(i as int + 1));
        }
        s
    }
}

/// Joins owned strings with a separator, as the argument docs are shown.
pub fn join_strings(items: &Vec<String>, sep: &str) -> (r: String)
    ensures
        r@ == spec_join(str_views(items@), sep@),
{
    let r = join_from(items, 0, sep);
    proof {
        assert(str_views(items@).skip(0) =~= str_views(items@));
    }
    r
}

/// The display text of an array length: a literal count in decimal, or the
/// generic parameter's name.
pub open spec fn spec_array_len(l: IdlArrayLen) -> Seq<char> {
    match l {
        IdlArrayLen::Literal(n) => spec_dec(n as nat),
        IdlArrayLen::Generic(name) => name@,
    }
}

/// The display text of one generic argument: a type recursively, or the
/// literal text of a constant.
pub open spec fn spec_format_generic_arg(g: IdlGenericArg) -> Seq<char>
    decreases g,
{
    match g {
        IdlGenericArg::Type { ty } => spec_format_type(ty),
        IdlGenericArg::Const { value } => value@,
    }
}

/// The comma-joined display texts of a generic argument list.
pub open spec fn spec_format_generics(gs: Seq<IdlGenericArg>) -> Seq<char>
    decreases gs,
{
    if gs.len() == 0 {
        Seq::empty()
    } else if gs.len() == 1 {
        spec_format_generic_arg(gs[0])
    } else {
        spec_format_generic_arg(gs[0]) + ", "@ + spec_format_generics(gs.drop_first())
    }
}

/// The canonical display text of a type expression.
pub open spec fn spec_format_type(t: IdlType) -> Seq<char>
    decreases t,
{
    match t {
        IdlType::Bool => "bool"@,
        IdlType::U8 => "u8"@,
        IdlType::I8 => "i8"@,
        IdlType::U16 => "u16"@,
        IdlType::I16 => "i16"@,
        IdlType::U32 => "u32"@,
        IdlType::I32 => "i32"@,
        IdlType::F32 => "f32"@,
        IdlType::U64 => "u64"@,
        IdlType::I64 => "i64"@,
        IdlType::F64 => "f64"@,
        IdlType::U128 => "u128"@,
        IdlType::I128 => "i128"@,
        IdlType::U256 => "u256"@,
        IdlType::I256 => "i256"@,
        IdlType::Bytes => "bytes"@,
        IdlType::Text => "string"@,
        IdlType::Pubkey => "pubkey"@,
        IdlType::OptionOf(inner) => "Option<"@ + spec_format_type(*inner) + ">"@,
        IdlType::VecOf(inner) => "Vec<"@ + spec_format_type(*inner) + ">"@,
        IdlType::Array(inner, len) => "["@ + spec_format_type(*inner) + "; "@ + spec_array_len(
            len,
        ) + "]"@,
        IdlType::Defined { name, generics } => if generics@.len() == 0 {
            name@
        } else {
            name@ + "<"@ + spec_format_generics(generics@) + ">"@
        },
        IdlType::Generic(name) => name@,
        IdlType::Unknown => "<unknown type>"@,
    }
}

fn format_generics_from(gs: &Vec<IdlGenericArg>, i: usize) -> (r: String)
    requires
        i <= gs@.len(),
    ensures
        r@ == spec_format_generics(gs@.skip(i as int)),
    decreases gs@, gs@.len() - i,
{
    if i == gs.len() {
        assert(gs@.skip(i as int) =~= Seq::empty());
        String::new()
    } else if i + 1 == gs.len() {
        proof {
            assert(gs@.skip(i as int) =~= seq![gs@[i as int]]);
        }
        format_generic_arg(&gs[i])
    } else {
        let mut s = format_generic_arg(&gs[i]);
        s.append(", ");
        let rest = format_generics_from(gs, i + 1);
        s.append(rest.as_str());
        proof {
            let vs = gs@.skip(i as int);
            assert(vs[0] == gs@[i as int]);
            assert(vs.drop_first() =~= gs@.skip(i as int + 1));
        }
        s
    }
}

fn format_generic_arg(g: &IdlGenericArg) -> (r: String)
    ensures
        r@ == spec_format_generic_arg(*g),
    decreases *g,
{
    match g {
        IdlGenericArg::Type { ty } => format_type(ty),
        IdlGenericArg::Const { value } => value.clone(),
    }
}

/// Renders a type expression to its canonical display text, recursively for
/// nested types; a variant the model does not know renders to a fixed
/// placeholder rather than failing.
pub fn format_type(t: &IdlType) -> (r: String)
    ensures
        r@ == spec_format_type(*t),
    decreases *t,
{
    match t {
        IdlType::Bool => String::from_str("bool"),
        IdlType::U8 => String::from_str("u8"),
        IdlType::I8 => String::from_str("i8"),
        IdlType::U16 => String::from_str("u16"),
        IdlType::I16 => String::from_str("i16"),
        IdlType::U32 => String::from_str("u32"),
        IdlType::I32 => String::from_str("i32"),
        IdlType::F32 => String::from_str("f32"),
        IdlType::U64 => String::from_str("u64"),
        IdlType::I64 => String::from_str("i64"),
        IdlType::F64 => String::from_str("f64"),
        IdlType::U128 => String::from_str("u128"),
        IdlType::I128 => String::from_str("i128"),
        IdlType::U256 => String::from_str("u256"),
        IdlType::I256 => String::from_str("i256"),
        IdlType::Bytes => String::from_str("bytes"),
        IdlType::Text => String::from_str("string"),
        IdlType::Pubkey => String::from_str("pubkey"),
        IdlType::OptionOf(inner) => {
            let mut s = String::from_str("Option<");
            let fi = format_type(inner);
            s.append(fi.as_str());
            s.append(">");
            s
        },
        IdlType::VecOf(inner) => {
            let mut s = String::from_str("Vec<");
            let fi = format_type(inner);
            s.append(fi.as_str());
            s.append(">");
            s
        },
        IdlType::Array(inner, len) => {
            let mut s = String::from_str("[");
            let fi = format_type(inner);
            s.append(fi.as_str());
            s.append("; ");
            let ls = match len {
                IdlArrayLen::Literal(n) => u64_to_string(*n),
                IdlArrayLen::Generic(name) => name.clone(),
            };
            s.append(ls.as_str());
            s.append("]");
            s
        },
        IdlType::Defined { name, generics } => {
            if generics.len() == 0 {
                name.clone()
            } else {
                let mut s = name.clone();
                s.append("<");
                let g = format_generics_from(generics, 0);
                proof {
                    assert(generics@.skip(0) =~= generics@);
                }
                s.append(g.as_str());
                s.append(">");
                s
            }
        },
        IdlType::Generic(name) => name.clone(),
        IdlType::Unknown => String::from_str("<unknown type>"),
    }
}

} // verus!
