//! Identifier rendering for the Pascal target.
//!
//! Names from the interface description are converted to snake case (through
//! the `heck` crate) and escaped when they collide with a Pascal keyword, or
//! with the `ret` and `err` variable names that flattened signatures use.

use crate::text::{chars_eq_str, str_chars};
use vstd::prelude::*;

verus! {

/// What `heck`'s snake-case conversion returns for the given characters; the
/// result depends on the characters alone.
pub uninterp spec fn snake_of(s: Seq<char>) -> Seq<char>;

/// What `heck`'s shouty-snake-case conversion returns for the given
/// characters; the result depends on the characters alone.
pub uninterp spec fn shouty_of(s: Seq<char>) -> Seq<char>;

/// The snake-case form of `v`.
///
/// Relies on `heck::ToSnakeCase::to_snake_case`, a pure function of the
/// characters of its input; an empty input stays empty.
#[verifier::external_body]
pub fn snake_chars(v: &Vec<char>) -> (r: Vec<char>)
    ensures
        r@ == snake_of(v@),
        v@.len() == 0 ==> r@.len() == 0,
{
    let s: String = v.iter().collect();
    let out = heck::ToSnakeCase::to_snake_case(s.as_str());
    out.chars().collect()
}

/// The shouty-snake-case form of `v`.
///
/// Relies on `heck::ToShoutySnakeCase::to_shouty_snake_case`, a pure function
/// of the characters of its input; an empty input stays empty.
#[verifier::external_body]
pub fn shouty_chars(v: &Vec<char>) -> (r: Vec<char>)
    ensures
        r@ == shouty_of(v@),
        v@.len() == 0 ==> r@.len() == 0,
{
    let s: String = v.iter().collect();
    let out = heck::ToShoutySnakeCase::to_shouty_snake_case(s.as_str());
    out.chars().collect()
}

/// The Pascal identifier for `s`: keywords (and the reserved `ret` and `err`)
/// get a trailing underscore, everything else is converted to snake case.
pub open spec fn pascal_ident_of(s: Seq<char>) -> Seq<char> {
    if s == "and"@ {
        "and_"@
    } else if s == "array"@ {
        "array_"@
    } else if s == "as"@ {
        "as_"@
    } else if s == "asm"@ {
        "asm_"@
    } else if s == "begin"@ {
        "begin_"@
    } else if s == "bitpacked"@ {
        "bitpacked_"@
    } else if s == "case"@ {
        "case_"@
    } else if s == "class"@ {
        "class_"@
    } else if s == "const"@ {
        "const_"@
    } else if s == "constref"@ {
        "constref_"@
    } else if s == "constructor"@ {
        "constructor_"@
    } else if s == "destructor"@ {
        "destructor_"@
    } else if s == "div"@ {
        "div_"@
    } else if s == "do"@ {
        "do_"@
    } else if s == "downto"@ {
        "downto_"@
    } else if s == "else"@ {
        "else_"@
    } else if s == "end"@ {
        "end_"@
    } else if s == "except"@ {
        "except_"@
    } else if s == "exports"@ {
        "exports_"@
    } else if s == "file"@ {
        "file_"@
    } else if s == "finalization"@ {
        "finalization_"@
    } else if s == "finally"@ {
        "finally_"@
    } else if s == "for"@ {
        "for_"@
    } else if s == "function"@ {
        "function_"@
    } else if s == "goto"@ {
        "goto_"@
    } else if s == "if"@ {
        "if_"@
    } else if s == "implementation"@ {
        "implementation_"@
    } else if s == "in"@ {
        "in_"@
    } else if s == "inherited"@ {
        "inherited_"@
    } else if s == "initialization"@ {
        "initialization_"@
    } else if s == "interface"@ {
        "interface_"@
    } else if s == "is"@ {
        "is_"@
    } else if s == "label"@ {
        "label_"@
    } else if s == "library"@ {
        "library_"@
    } else if s == "mod"@ {
        "mod_"@
    } else if s == "nil"@ {
        "nil_"@
    } else if s == "not"@ {
        "not_"@
    } else if s == "object"@ {
        "object_"@
    } else if s == "of"@ {
        "of_"@
    } else if s == "operator"@ {
        "operator_"@
    } else if s == "or"@ {
        "or_"@
    } else if s == "otherwise"@ {
        "otherwise_"@
    } else if s == "out"@ {
        "out_"@
    } else if s == "packed"@ {
        "packed_"@
    } else if s == "procedure"@ {
        "procedure_"@
    } else if s == "program"@ {
        "program_"@
    } else if s == "property"@ {
        "property_"@
    } else if s == "raise"@ {
        "raise_"@
    } else if s == "record"@ {
        "record_"@
    } else if s == "repeat"@ {
        "repeat_"@
    } else if s == "resourcestring"@ {
        "resourcestring_"@
    } else if s == "result"@ {
        "result_"@
    } else if s == "set"@ {
        "set_"@
    } else if s == "shl"@ {
        "shl_"@
    } else if s == "shr"@ {
        "shr_"@
    } else if s == "specialize"@ {
        "specialize_"@
    } else if s == "string"@ {
        "string_"@
    } else if s == "then"@ {
        "then_"@
    } else if s == "threadvar"@ {
        "threadvar_"@
    } else if s == "to"@ {
        "to_"@
    } else if s == "try"@ {
        "try_"@
    } else if s == "type"@ {
        "type_"@
    } else if s == "unit"@ {
        "unit_"@
    } else if s == "until"@ {
        "until_"@
    } else if s == "uses"@ {
        "uses_"@
    } else if s == "var"@ {
        "var_"@
    } else if s == "while"@ {
        "while_"@
    } else if s == "with"@ {
        "with_"@
    } else if s == "xor"@ {
        "xor_"@
    } else if s == "ret"@ {
        "ret_"@
    } else if s == "err"@ {
        "err_"@
    } else {
        snake_of(s)
    }
}

/// Escape `name` for use as a Pascal identifier; see [`pascal_ident_of`].
pub fn to_pascal_ident(name: &Vec<char>) -> (r: Vec<char>)
    ensures
        r@ == pascal_ident_of(name@),
{
    if chars_eq_str(name, "and") {
        str_chars("and_")
    } else if chars_eq_str(name, "array") {
        str_chars("array_")
    } else if chars_eq_str(name, "as") {
        str_chars("as_")
    } else if chars_eq_str(name, "asm") {
        str_chars("asm_")
    } else if chars_eq_str(name, "begin") {
        str_chars("begin_")
    } else if chars_eq_str(name, "bitpacked") {
        str_chars("bitpacked_")
    } else if chars_eq_str(name, "case") {
        str_chars("case_")
    } else if chars_eq_str(name, "class") {
        str_chars("class_")
    } else if chars_eq_str(name, "const") {
        str_chars("const_")
    } else if chars_eq_str(name, "constref") {
        str_chars("constref_")
    } else if chars_eq_str(name, "constructor") {
        str_chars("constructor_")
    } else if chars_eq_str(name, "destructor") {
        str_chars("destructor_")
    } else if chars_eq_str(name, "div") {
        str_chars("div_")
    } else if chars_eq_str(name, "do") {
        str_chars("do_")
    } else if chars_eq_str(name, "downto") {
        str_chars("downto_")
    } else if chars_eq_str(name, "else") {
        str_chars("else_")
    } else if chars_eq_str(name, "end") {
        str_chars("end_")
    } else if chars_eq_str(name, "except") {
        str_chars("except_")
    } else if chars_eq_str(name, "exports") {
        str_chars("exports_")
    } else if chars_eq_str(name, "file") {
        str_chars("file_")
    } else if chars_eq_str(name, "finalization") {
        str_chars("finalization_")
    } else if chars_eq_str(name, "finally") {
        str_chars("finally_")
    } else if chars_eq_str(name, "for") {
        str_chars("for_")
    } else if chars_eq_str(name, "function") {
        str_chars("function_")
    } else if chars_eq_str(name, "goto") {
        str_chars("goto_")
    } else if chars_eq_str(name, "if") {
        str_chars("if_")
    } else if chars_eq_str(name, "implementation") {
        str_chars("implementation_")
    } else if chars_eq_str(name, "in") {
        str_chars("in_")
    } else if chars_eq_str(name, "inherited") {
        str_chars("inherited_")
    } else if chars_eq_str(name, "initialization") {
        str_chars("initialization_")
    } else if chars_eq_str(name, "interface") {
        str_chars("interface_")
    } else if chars_eq_str(name, "is") {
        str_chars("is_")
    } else if chars_eq_str(name, "label") {
        str_chars("label_")
    } else if chars_eq_str(name, "library") {
        str_chars("library_")
    } else if chars_eq_str(name, "mod") {
        str_chars("mod_")
    } else if chars_eq_str(name, "nil") {
        str_chars("nil_")
    } else if chars_eq_str(name, "not") {
        str_chars("not_")
    } else if chars_eq_str(name, "object") {
        str_chars("object_")
    } else if chars_eq_str(name, "of") {
        str_chars("of_")
    } else if chars_eq_str(name, "operator") {
        str_chars("operator_")
    } else if chars_eq_str(name, "or") {
        str_chars("or_")
    } else if chars_eq_str(name, "otherwise") {
        str_chars("otherwise_")
    } else if chars_eq_str(name, "out") {
        str_chars("out_")
    } else if chars_eq_str(name, "packed") {
        str_chars("packed_")
    } else if chars_eq_str(name, "procedure") {
        str_chars("procedure_")
    } else if chars_eq_str(name, "program") {
        str_chars("program_")
    } else if chars_eq_str(name, "property") {
        str_chars("property_")
    } else if chars_eq_str(name, "raise") {
        str_chars("raise_")
    } else if chars_eq_str(name, "record") {
        str_chars("record_")
    } else if chars_eq_str(name, "repeat") {
        str_chars("repeat_")
    } else if chars_eq_str(name, "resourcestring") {
        str_chars("resourcestring_")
    } else if chars_eq_str(name, "result") {
        str_chars("result_")
    } else if chars_eq_str(name, "set") {
        str_chars("set_")
    } else if chars_eq_str(name, "shl") {
        str_chars("shl_")
    } else if chars_eq_str(name, "shr") {
        str_chars("shr_")
    } else if chars_eq_str(name, "specialize") {
        str_chars("specialize_")
    } else if chars_eq_str(name, "string") {
        str_chars("string_")
    } else if chars_eq_str(name, "then") {
        str_chars("then_")
    } else if chars_eq_str(name, "threadvar") {
        str_chars("threadvar_")
    } else if chars_eq_str(name, "to") {
        str_chars("to_")
    } else if chars_eq_str(name, "try") {
        str_chars("try_")
    } else if chars_eq_str(name, "type") {
        str_chars("type_")
    } else if chars_eq_str(name, "unit") {
        str_chars("unit_")
    } else if chars_eq_str(name, "until") {
        str_chars("until_")
    } else if chars_eq_str(name, "uses") {
        str_chars("uses_")
    } else if chars_eq_str(name, "var") {
        str_chars("var_")
    } else if chars_eq_str(name, "while") {
        str_chars("while_")
    } else if chars_eq_str(name, "with") {
        str_chars("with_")
    } else if chars_eq_str(name, "xor") {
        str_chars("xor_")
    } else if chars_eq_str(name, "ret") {
        str_chars("ret_")
    } else if chars_eq_str(name, "err") {
        str_chars("err_")
    } else {
        snake_chars(name)
    }
}

} // verus!
