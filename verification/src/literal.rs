//! String literals of the generated source: a value between double quotes,
//! with the characters escaped that may not stand in a literal as they are.

use vstd::prelude::*;

verus! {

/// `String::push` of the standard library: the character is appended to the
/// end of the string, and nothing else changes.
pub assume_specification[ String::push ](s: &mut String, ch: char)
    ensures
        final(s)@ == old(s)@.push(ch),
;

/// One character as it stands inside a string literal: a double quote, a
/// backslash, a line feed, a carriage return, a tab and the null character
/// are written as escapes, every other character stands for itself.
pub open spec fn escape_char_text(c: char) -> Seq<char> {
    if c == '"' {
        "\\\""@
    } else if c == '\\' {
        "\\\\"@
    } else if c == '\n' {
        "\\n"@
    } else if c == '\r' {
        "\\r"@
    } else if c == '\t' {
        "\\t"@
    } else if c == '\0' {
        "\\0"@
    } else {
        seq![c]
    }
}

/// The characters of `value`, each as it stands inside a string literal.
pub open spec fn escaped_text(value: Seq<char>) -> Seq<char>
    decreases value.len(),
{
    if value.len() == 0 {
        Seq::empty()
    } else {
        escaped_text(value.drop_last()) + escape_char_text(value.last())
    }
}

/// The string literal that denotes `value`.
pub open spec fn string_literal_text(value: Seq<char>) -> Seq<char> {
    "\""@ + escaped_text(value) + "\""@
}

/// The character that an escape stands for, given the character behind its
/// backslash.
pub open spec fn escape_target(c: char) -> Option<char> {
    if c == '"' {
        Some('"')
    } else if c == '\\' {
        Some('\\')
    } else if c == 'n' {
        Some('\n')
    } else if c == 'r' {
        Some('\r')
    } else if c == 't' {
        Some('\t')
    } else if c == '0' {
        Some('\0')
    } else {
        None
    }
}

/// The value that the text between the quotes of a string literal denotes,
/// where that text is made of plain characters and the escapes above.
pub open spec fn unescaped_text(text: Seq<char>) -> Option<Seq<char>>
    decreases text.len(),
{
    if text.len() == 0 {
        Some(Seq::empty())
    } else if text[0] == '\\' {
        if text.len() < 2 {
            None
        } else {
            match (escape_target(text[1]), unescaped_text(text.skip(2))) {
                (Some(c), Some(rest)) => Some(seq![c] + rest),
                _ => None,
            }
        }
    } else if text[0] == '"' {
        None
    } else {
        match unescaped_text(text.skip(1)) {
            Some(rest) => Some(seq![text[0]] + rest),
            None => None,
        }
    }
}

/// The value that a string literal denotes.
pub open spec fn string_literal_value(literal: Seq<char>) -> Option<Seq<char>> {
    if literal.len() >= 2 && literal.first() == '"' && literal.last() == '"' {
        unescaped_text(literal.subrange(1, literal.len() - 1))
    } else {
        None
    }
}

/// Escaping goes character by character: the escaped form of two texts in
/// a row is the escaped forms in a row.
pub proof fn lemma_escaped_text_concat(a: Seq<char>, b: Seq<char>)
    ensures
        escaped_text(a + b) == escaped_text(a) + escaped_text(b),
    decreases b.len(),
{
    if b.len() == 0 {
        assert(a + b =~= a);
        assert(escaped_text(a) + escaped_text(b) =~= escaped_text(a));
    } else {
        lemma_escaped_text_concat(a, b.drop_last());
        assert((a + b).drop_last() =~= a + b.drop_last());
        assert((a + b).last() == b.last());
        assert(escaped_text(a + b) =~= escaped_text(a) + escaped_text(b));
    }
}

/// Reading an escaped character back gives the character, whatever follows
/// it.
pub proof fn lemma_unescape_first(c: char, rest: Seq<char>)
    ensures
        (unescaped_text(escape_char_text(c) + rest) == match unescaped_text(rest) {
            Some(value) => Some(seq![c] + value),
            None => None,
        }),
{
    reveal_strlit("\\\"");
    reveal_strlit("\\\\");
    reveal_strlit("\\n");
    reveal_strlit("\\r");
    reveal_strlit("\\t");
    reveal_strlit("\\0");
    let text = escape_char_text(c) + rest;
    if escape_char_text(c).len() == 2 {
        assert(text.skip(2) =~= rest);
    } else {
        assert(text.skip(1) =~= rest);
    }
}

/// The escaped form of a value denotes that value.
pub proof fn lemma_unescaped_escaped(value: Seq<char>)
    ensures
        unescaped_text(escaped_text(value)) == Some(value),
    decreases value.len(),
{
    if value.len() > 0 {
        let head = seq![value[0]];
        let tail = value.skip(1);
        assert(value =~= head + tail);
        lemma_escaped_text_concat(head, tail);
        assert(head.drop_last() =~= Seq::<char>::empty());
        assert(escaped_text(head.drop_last()) =~= Seq::<char>::empty());
        assert(escaped_text(head) =~= escape_char_text(value[0]));
        lemma_unescaped_escaped(tail);
        lemma_unescape_first(value[0], escaped_text(tail));
    }
}

/// The string literal of a value denotes that value: nothing of the value
/// is lost or changed by writing it as a literal.
pub proof fn lemma_string_literal_value(value: Seq<char>)
    ensures
        string_literal_value(string_literal_text(value)) == Some(value),
{
    reveal_strlit("\"");
    let literal = string_literal_text(value);
    assert(literal.subrange(1, literal.len() - 1) =~= escaped_text(value));
    lemma_unescaped_escaped(value);
}

fn append_escaped_char(out: &mut String, c: char)
    ensures
        final(out)@ == old(out)@ + escape_char_text(c),
{
    if c == '"' {
        out.append("\\\"");
    } else if c == '\\' {
        out.append("\\\\");
    } else if c == '\n' {
        out.append("\\n");
    } else if c == '\r' {
        out.append("\\r");
    } else if c == '\t' {
        out.append("\\t");
    } else if c == '\0' {
        out.append("\\0");
    } else {
        out.push(c);
    }
}

/// Appends to `out` the string literal that denotes `value`.
pub fn append_string_literal(out: &mut String, value: &str)
    ensures
        final(out)@ == old(out)@ + string_literal_text(value@),
{
    let mut escaped = String::new();
    for c in it: value.chars()
        invariant
            it.seq() == value@,
            escaped@ == escaped_text(value@.take(it.index() as int)),
    {
        append_escaped_char(&mut escaped, c);
        proof {
            let upto = value@.take(it.index() + 1);
            assert(upto.drop_last() =~= value@.take(it.index() as int));
            assert(upto.last() == c);
        }
    }
    assert(value@.take(value@.len() as int) =~= value@);
    out.append("\"");
    out.append(escaped.as_str());
    out.append("\"");
}

} // verus!
