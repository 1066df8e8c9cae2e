//! Rendering of a JSON document as pretty-printed text: two-space
//! indentation, members in order, strings escaped.

use vstd::prelude::*;
use vstd::string::{StrSliceExecFns, StringExecFns};
use crate::json::{jview, jview_arr, jview_obj, lemma_jview_arr, lemma_jview_obj, Json, JsonV};
use crate::text::{push_udec, spec_udec};

verus! {

/// The escape of one string character: quotes and backslashes are preceded
/// by a backslash, the named control characters take their short forms, any
/// other control character its four-digit form, and everything else stands
/// as itself.
pub open spec fn spec_escape_char(c: char) -> Seq<char> {
    if c == '"' {
        seq!['\\', '"']
    } else if c == '\\' {
        seq!['\\', '\\']
    } else if c as u32 == 8 {
        seq!['\\', 'b']
    } else if c == '\t' {
        seq!['\\', 't']
    } else if c == '\n' {
        seq!['\\', 'n']
    } else if c as u32 == 12 {
        seq!['\\', 'f']
    } else if c == '\r' {
        seq!['\\', 'r']
    } else if (c as u32) < 32 {
        seq!['\\', 'u', '0', '0', hex_digit((c as u32 / 16) as nat), hex_digit((c as u32 % 16) as nat)]
    } else {
        seq![c]
    }
}

/// The lower-case hexadecimal digit for `d`.
pub open spec fn hex_digit(d: nat) -> char {
    if d < 10 {
        ((48 + d) as u8) as char
    } else {
        ((87 + d) as u8) as char
    }
}

/// The escape of a whole string body.
pub open spec fn spec_escape(s: Seq<char>) -> Seq<char>
    decreases s.len(),
{
    if s.len() == 0 {
        Seq::empty()
    } else {
        spec_escape_char(s.first()) + spec_escape(s.drop_first())
    }
}

/// A run of `n` spaces.
pub open spec fn spec_spaces(n: nat) -> Seq<char>
    decreases n,
{
    if n == 0 {
        Seq::empty()
    } else {
        spec_spaces((n - 1) as nat) + seq![' ']
    }
}

/// The pretty text of a document value standing at indentation `ind`.
pub open spec fn spec_render(j: JsonV, ind: nat) -> Seq<char>
    decreases j,
{
    match j {
        JsonV::Null => "null"@,
        JsonV::Bool(b) => if b {
            "true"@
        } else {
            "false"@
        },
        JsonV::Num(n) => spec_udec(n as nat),
        JsonV::Str(s) => seq!['"'] + spec_escape(s) + seq!['"'],
        JsonV::Arr(items) => if items.len() == 0 {
            "[]"@
        } else {
            seq!['[', '\n'] + spec_render_items(items, (ind + 2) as nat) + seq!['\n']
                + spec_spaces(ind) + seq![']']
        },
        JsonV::Obj(members) => if members.len() == 0 {
            "{}"@
        } else {
            seq!['{', '\n'] + spec_render_members(members, (ind + 2) as nat) + seq!['\n']
                + spec_spaces(ind) + seq!['}']
        },
    }
}

/// The pretty text of an array's items, each on its own line, separated by
/// commas.
pub open spec fn spec_render_items(items: Seq<JsonV>, ind: nat) -> Seq<char>
    decreases items,
{
    if items.len() == 0 {
        Seq::empty()
    } else if items.len() == 1 {
        spec_spaces(ind) + spec_render(items.first(), ind)
    } else {
        spec_spaces(ind) + spec_render(items.first(), ind) + seq![',', '\n']
            + spec_render_items(items.drop_first(), ind)
    }
}

/// The pretty text of an object's members, each `"key": value` on its own
/// line, separated by commas.
pub open spec fn spec_render_members(members: Seq<(Seq<char>, JsonV)>, ind: nat) -> Seq<char>
    decreases members,
{
    if members.len() == 0 {
        Seq::empty()
    } else {
        let entry = spec_spaces(ind) + seq!['"'] + spec_escape(members.first().0) + seq!['"', ':', ' ']
            + spec_render(members.first().1, ind);
        if members.len() == 1 {
            entry
        } else {
            entry + seq![',', '\n'] + spec_render_members(members.drop_first(), ind)
        }
    }
}

fn hex_digit_str(d: u32) -> (r: &'static str)
    requires
        d < 16,
    ensures
        r@ == seq![hex_digit(d as nat)],
{
    proof {
        reveal_strlit("0");
        reveal_strlit("1");
        reveal_strlit("2");
        reveal_strlit("3");
        reveal_strlit("4");
        reveal_strlit("5");
        reveal_strlit("6");
        reveal_strlit("7");
        reveal_strlit("8");
        reveal_strlit("9");
        reveal_strlit("a");
        reveal_strlit("b");
        reveal_strlit("c");
        reveal_strlit("d");
        reveal_strlit("e");
        reveal_strlit("f");
    }
    match d {
        0 => "0",
        1 => "1",
        2 => "2",
        3 => "3",
        4 => "4",
        5 => "5",
        6 => "6",
        7 => "7",
        8 => "8",
        9 => "9",
        10 => "a",
        11 => "b",
        12 => "c",
        13 => "d",
        14 => "e",
        _ => "f",
    }
}

/// Appends the escape of one character.
fn push_escaped_char(out: &mut String, c: char)
    ensures
        final(out)@ == old(out)@ + spec_escape_char(c),
{
    if c == '"' {
        out.append("\\\"");
        proof {
            reveal_strlit("\\\"");
            assert("\\\""@ =~= seq!['\\', '"']);
        }
    } else if c == '\\' {
        out.append("\\\\");
        proof {
            reveal_strlit("\\\\");
            assert("\\\\"@ =~= seq!['\\', '\\']);
        }
    } else if c as u32 == 8 {
        out.append("\\b");
        proof {
            reveal_strlit("\\b");
            assert("\\b"@ =~= seq!['\\', 'b']);
        }
    } else if c == '\t' {
        out.append("\\t");
        proof {
            reveal_strlit("\\t");
            assert("\\t"@ =~= seq!['\\', 't']);
        }
    } else if c == '\n' {
        out.append("\\n");
        proof {
            reveal_strlit("\\n");
            assert("\\n"@ =~= seq!['\\', 'n']);
        }
    } else if c as u32 == 12 {
        out.append("\\f");
        proof {
            reveal_strlit("\\f");
            assert("\\f"@ =~= seq!['\\', 'f']);
        }
    } else if c == '\r' {
        out.append("\\r");
        proof {
            reveal_strlit("\\r");
            assert("\\r"@ =~= seq!['\\', 'r']);
        }
    } else if (c as u32) < 32 {
        out.append("\\u00");
        out.append(hex_digit_str(c as u32 / 16));
        out.append(hex_digit_str(c as u32 % 16));
        proof {
            reveal_strlit("\\u00");
            assert("\\u00"@ =~= seq!['\\', 'u', '0', '0']);
            assert(final(out)@ =~= old(out)@ + spec_escape_char(c));
        }
    } else {
        push_char(out, c);
    }
}

/// Relies on std's `String::push`: appends exactly the one character.
#[verifier::external_body]
fn push_char(out: &mut String, c: char)
    ensures
        final(out)@ == old(out)@ + seq![c],
{
    out.push(c);
}

/// Appends the escaped body of a string.
fn push_escaped(out: &mut String, s: &str)
    ensures
        final(out)@ == old(out)@ + spec_escape(s@),
{
    let n = s.unicode_len();
    let mut i: usize = 0;
    proof {
        assert(s@.skip(0) =~= s@);
    }
    while i < n
        invariant
            n == s@.len(),
            i <= n,
            out@ + spec_escape(s@.skip(i as int)) == old(out)@ + spec_escape(s@),
        decreases n - i,
    {
        proof {
            assert(s@.skip(i as int).first() == s@[i as int]);
            assert(s@.skip(i as int).drop_first() =~= s@.skip(i + 1));
        }
        push_escaped_char(out, s.get_char(i));
        i = i + 1;
    }
    proof {
        assert(s@.skip(n as int) =~= Seq::<char>::empty());
    }
}

/// Appends the pretty text of a document value standing at the indentation
/// whose spaces `pad` holds.
#[verifier::rlimit(100)]
#[verifier::loop_isolation(false)]
fn push_render(out: &mut String, j: &Json, pad: &String, Ghost(ind): Ghost<nat>)
    requires
        pad@ == spec_spaces(ind),
    ensures
        final(out)@ == old(out)@ + spec_render(j@, ind),
    decreases j,
{
    broadcast use vstd::std_specs::vec::group_vec_axioms;

    match j {
        Json::Null => {
            out.append("null");
        },
        Json::Bool(b) => {
            if *b {
                out.append("true");
            } else {
                out.append("false");
            }
        },
        Json::Num(n) => {
            push_udec(out, *n);
        },
        Json::Str(s) => {
            push_quoted(out, s.as_str());
        },
        Json::Arr(items) => {
            if items.len() == 0 {
                out.append("[]");
            } else {
                proof {
                    reveal_strlit("[\n");
                    assert("[\n"@ =~= seq!['[', '\n']);
                    reveal_strlit("\n");
                    assert("\n"@ =~= seq!['\n']);
                    reveal_strlit("]");
                    assert("]"@ =~= seq![']']);
                    reveal_strlit(",\n");
                    assert(",\n"@ =~= seq![',', '\n']);
                    lemma_jview_arr(items@);
                }
                out.append("[\n");
                let deeper = indent_more(pad, Ghost(ind));
                let ghost s = jview_arr(items@);
                let ghost target = old(out)@ + spec_render(j@, ind);
                let mut i: usize = 0;
                proof {
                    assert(s.skip(0) =~= s);
                }
                while i < items.len()
                    invariant
                        items@.len() == s.len(),
                        forall|k: int| 0 <= k < s.len() ==> s[k] == jview(#[trigger] items@[k]),
                        i < items@.len(),
                        deeper@ == spec_spaces(ind + 2),
                        out@ + spec_render_items(s.skip(i as int), ind + 2) + seq!['\n']
                            + spec_spaces(ind) + seq![']'] == target,
                    decreases items@.len() - i,
                {
                    proof {
                        assert(s.skip(i as int).first() == s[i as int]);
                        assert(s.skip(i as int).drop_first() =~= s.skip(i + 1));
                    }
                    out.append(deeper.as_str());
                    proof {
                        assert(decreases_to!(*j => items@[i as int]));
                    }
                    push_render(out, &items[i], &deeper, Ghost(ind + 2));
                    if i + 1 < items.len() {
                        out.append(",\n");
                        proof {
                            assert(out@ + spec_render_items(s.skip(i + 1), ind + 2) + seq!['\n']
                                + spec_spaces(ind) + seq![']'] =~= target);
                        }
                    } else {
                        out.append("\n");
                        out.append(pad.as_str());
                        out.append("]");
                        proof {
                            assert(out@ =~= target);
                        }
                        return ;
                    }
                    i = i + 1;
                }
            }
        },
        Json::Obj(members) => {
            if members.len() == 0 {
                out.append("{}");
            } else {
                proof {
                    reveal_strlit("{\n");
                    assert("{\n"@ =~= seq!['{', '\n']);
                    reveal_strlit("\n");
                    assert("\n"@ =~= seq!['\n']);
                    reveal_strlit("}");
                    assert("}"@ =~= seq!['}']);
                    reveal_strlit(",\n");
                    assert(",\n"@ =~= seq![',', '\n']);
                    reveal_strlit(": ");
                    assert(": "@ =~= seq![':', ' ']);
                    lemma_jview_obj(members@);
                }
                out.append("{\n");
                let deeper = indent_more(pad, Ghost(ind));
                let ghost s = jview_obj(members@);
                let ghost target = old(out)@ + spec_render(j@, ind);
                let mut i: usize = 0;
                proof {
                    assert(s.skip(0) =~= s);
                }
                while i < members.len()
                    invariant
                        members@.len() == s.len(),
                        forall|k: int|
                            0 <= k < s.len() ==> s[k] == (
                            (#[trigger] members@[k]).0@,
                            jview(members@[k].1),
                            ),
                        i < members@.len(),
                        deeper@ == spec_spaces(ind + 2),
                        out@ + spec_render_members(s.skip(i as int), ind + 2) + seq!['\n']
                            + spec_spaces(ind) + seq!['}'] == target,
                    decreases members@.len() - i,
                {
                    proof {
                        assert(s.skip(i as int).first() == s[i as int]);
                        assert(s.skip(i as int).drop_first() =~= s.skip(i + 1));
                    }
                    out.append(deeper.as_str());
                    push_quoted(out, members[i].0.as_str());
                    out.append(": ");
                    proof {
                        assert(decreases_to!(*j => members@[i as int].1));
                    }
                    push_render(out, &members[i].1, &deeper, Ghost(ind + 2));
                    if i + 1 < members.len() {
                        out.append(",\n");
                        proof {
                            assert(out@ + spec_render_members(s.skip(i + 1), ind + 2)
                                + seq!['\n'] + spec_spaces(ind) + seq!['}'] =~= target);
                        }
                    } else {
                        out.append("\n");
                        out.append(pad.as_str());
                        out.append("}");
                        proof {
                            assert(out@ =~= target);
                        }
                        return ;
                    }
                    i = i + 1;
                }
            }
        },
    }
    proof {
        reveal_strlit("null");
        reveal_strlit("true");
        reveal_strlit("false");
        reveal_strlit("[]");
        reveal_strlit("{}");
    }
}

/// Appends a quoted, escaped string.
fn push_quoted(out: &mut String, s: &str)
    ensures
        final(out)@ == old(out)@ + seq!['"'] + spec_escape(s@) + seq!['"'],
{
    proof {
        reveal_strlit("\"");
        assert("\""@ =~= seq!['"']);
    }
    out.append("\"");
    push_escaped(out, s);
    out.append("\"");
}

/// Two more spaces of indentation.
fn indent_more(pad: &String, Ghost(ind): Ghost<nat>) -> (r: String)
    requires
        pad@ == spec_spaces(ind),
    ensures
        r@ == spec_spaces(ind + 2),
{
    let mut r = pad.clone();
    r.append("  ");
    proof {
        reveal_strlit("  ");
        assert("  "@ =~= seq![' ', ' ']);
        assert(spec_spaces(ind + 1) =~= spec_spaces(ind) + seq![' ']);
        assert(spec_spaces(ind + 2) =~= spec_spaces(ind + 1) + seq![' ']);
        assert(spec_spaces(ind + 2) =~= spec_spaces(ind) + seq![' ', ' ']);
    }
    r
}

/// Renders a document as pretty text: two-space indentation, object members
/// in order, every line ended as serde_json's pretty printer ends it.
pub fn render_json(j: &Json) -> (r: String)
    ensures
        r@ == spec_render(j@, 0),
{
    let mut out = String::new();
    push_render(&mut out, j, &String::new(), Ghost(0nat));
    proof {
        assert(out@ =~= spec_render(j@, 0));
    }
    out
}

} // verus!
