//! Text building blocks shared by the generators: decimal integer literals
//! and the lines of a method body.

use vstd::prelude::*;

verus! {

/// The text of a single decimal digit.
pub open spec fn digit_text(d: nat) -> Seq<char> {
    if d == 0 {
        "0"@
    } else if d == 1 {
        "1"@
    } else if d == 2 {
        "2"@
    } else if d == 3 {
        "3"@
    } else if d == 4 {
        "4"@
    } else if d == 5 {
        "5"@
    } else if d == 6 {
        "6"@
    } else if d == 7 {
        "7"@
    } else if d == 8 {
        "8"@
    } else {
        "9"@
    }
}

/// The decimal notation of `n`, most significant digit first, without
/// leading zeros.
pub open spec fn decimal_text(n: nat) -> Seq<char>
    decreases n,
{
    if n < 10 {
        digit_text(n)
    } else {
        decimal_text(n / 10) + digit_text(n % 10)
    }
}

/// The digit that a character denotes; a character that is no decimal
/// digit counts as zero.
pub open spec fn digit_value(c: char) -> nat {
    if c == '1' {
        1
    } else if c == '2' {
        2
    } else if c == '3' {
        3
    } else if c == '4' {
        4
    } else if c == '5' {
        5
    } else if c == '6' {
        6
    } else if c == '7' {
        7
    } else if c == '8' {
        8
    } else if c == '9' {
        9
    } else {
        0
    }
}

/// The number that a decimal notation denotes.
pub open spec fn decimal_value(text: Seq<char>) -> nat
    decreases text.len(),
{
    if text.len() == 0 {
        0
    } else {
        10 * decimal_value(text.drop_last()) + digit_value(text.last())
    }
}

/// The text of a digit is the one character that denotes it.
pub proof fn lemma_digit_text(d: nat)
    requires
        d < 10,
    ensures
        digit_text(d).len() == 1,
        digit_value(digit_text(d)[0]) == d,
{
    reveal_strlit("0");
    reveal_strlit("1");
    reveal_strlit("2");
    reveal_strlit("3");
    reveal_strlit("4");
    reveal_strlit("5");
    reveal_strlit("6");
    reveal_strlit("7");
    reveal_strlit("8");
    reveal_strlit("9");
}

/// The decimal notation of a number denotes that number.
pub proof fn lemma_decimal_value(n: nat)
    ensures
        decimal_text(n).len() >= 1,
        decimal_value(decimal_text(n)) == n,
    decreases n,
{
    if n < 10 {
        lemma_digit_text(n);
        assert(decimal_text(n).drop_last() =~= Seq::<char>::empty());
        assert(decimal_value(decimal_text(n).drop_last()) == 0);
    } else {
        lemma_decimal_value(n / 10);
        lemma_digit_text(n % 10);
        let text = decimal_text(n);
        assert(text.drop_last() =~= decimal_text(n / 10));
        assert(text.last() == digit_text(n % 10)[0]);
    }
}

fn digit(d: usize) -> (r: &'static str)
    requires
        d < 10,
    ensures
        r@ == digit_text(d as nat),
{
    if d == 0 {
        "0"
    } else if d == 1 {
        "1"
    } else if d == 2 {
        "2"
    } else if d == 3 {
        "3"
    } else if d == 4 {
        "4"
    } else if d == 5 {
        "5"
    } else if d == 6 {
        "6"
    } else if d == 7 {
        "7"
    } else if d == 8 {
        "8"
    } else {
        "9"
    }
}

/// Appends the decimal notation of `n` to `out`.
pub fn append_decimal(out: &mut String, n: usize)
    ensures
        final(out)@ == old(out)@ + decimal_text(n as nat),
    decreases n,
{
    if n >= 10 {
        append_decimal(out, n / 10);
    }
    out.append(digit(n % 10));
}

/// The decimal notation of `n` as a string of its own.
pub fn decimal(n: usize) -> (r: String)
    ensures
        r@ == decimal_text(n as nat),
{
    let mut out = String::new();
    append_decimal(&mut out, n);
    out
}

/// The texts of a sequence of strings, in the same order.
pub open spec fn texts_of(strings: Seq<String>) -> Seq<Seq<char>> {
    strings.map_values(|s: String| s@)
}

/// One statement as a line of a method body: indented by eight spaces and
/// ended by a line feed.
pub open spec fn statement_line_text(statement: Seq<char>) -> Seq<char> {
    "        "@ + statement + "\n"@
}

/// The statements as lines of a method body, first statement first.
pub open spec fn statements_text(statements: Seq<Seq<char>>) -> Seq<char>
    decreases statements.len(),
{
    if statements.len() == 0 {
        Seq::empty()
    } else {
        statements_text(statements.drop_last()) + statement_line_text(statements.last())
    }
}

/// Appends the statements to `out` as lines of a method body, in order.
pub fn append_statements(out: &mut String, statements: &Vec<String>)
    ensures
        final(out)@ == old(out)@ + statements_text(texts_of(statements@)),
{
    let ghost texts = texts_of(statements@);
    let mut lines = String::new();
    let mut i: usize = 0;
    while i < statements.len()
        invariant
            i <= statements@.len(),
            texts == texts_of(statements@),
            lines@ == statements_text(texts.take(i as int)),
        decreases statements@.len() - i,
    {
        lines.append("        ");
        lines.append(statements[i].as_str());
        lines.append("\n");
        proof {
            let upto = texts.take(i + 1);
            assert(upto.drop_last() =~= texts.take(i as int));
            assert(upto.last() == statements@[i as int]@);
        }
        i += 1;
    }
    assert(texts.take(i as int) =~= texts);
    out.append(lines.as_str());
}

/// Where the line of statement `i` starts within the lines of all the
/// statements: behind the lines of the statements before it.
pub open spec fn line_start(statements: Seq<Seq<char>>, i: int) -> nat {
    statements_text(statements.take(i)).len()
}

/// The lines of the first `i` statements are the beginning of the lines of
/// all of them.
pub proof fn lemma_lines_prefix(statements: Seq<Seq<char>>, i: int)
    requires
        0 <= i <= statements.len(),
    ensures
        line_start(statements, i) <= statements_text(statements).len(),
        statements_text(statements).take(line_start(statements, i) as int) == statements_text(
            statements.take(i),
        ),
    decreases statements.len() - i,
{
    if i == statements.len() {
        assert(statements.take(i) =~= statements);
    } else {
        lemma_lines_prefix(statements, i + 1);
        let longer = statements.take(i + 1);
        assert(longer.drop_last() =~= statements.take(i));
        assert(statements_text(longer) == statements_text(statements.take(i))
            + statement_line_text(longer.last()));
        assert(statements_text(statements).take(line_start(statements, i) as int)
            =~= statements_text(longer).take(line_start(statements, i) as int));
    }
}

/// Every statement has a line of its own among the lines of all the
/// statements: it starts where the lines of the statements before it end,
/// and the line of the next statement starts where it ends.
pub proof fn lemma_line_of_statement(statements: Seq<Seq<char>>, i: int)
    requires
        0 <= i < statements.len(),
    ensures
        line_start(statements, i + 1) == line_start(statements, i) + statement_line_text(
            statements[i],
        ).len(),
        line_start(statements, i + 1) <= statements_text(statements).len(),
        statements_text(statements).subrange(
            line_start(statements, i) as int,
            line_start(statements, i + 1) as int,
        ) == statement_line_text(statements[i]),
{
    let longer = statements.take(i + 1);
    assert(longer.drop_last() =~= statements.take(i));
    assert(longer.last() == statements[i]);
    lemma_lines_prefix(statements, i + 1);
    assert(statements_text(statements).subrange(
        line_start(statements, i) as int,
        line_start(statements, i + 1) as int,
    ) =~= statements_text(longer).subrange(
        line_start(statements, i) as int,
        line_start(statements, i + 1) as int,
    ));
    assert(statements_text(longer).subrange(
        line_start(statements, i) as int,
        line_start(statements, i + 1) as int,
    ) =~= statement_line_text(statements[i]));
}

/// The lines stand in the order of the statements: the line of an earlier
/// statement ends before the line of a later one starts.
pub proof fn lemma_lines_in_order(statements: Seq<Seq<char>>, i: int, j: int)
    requires
        0 <= i < j < statements.len(),
    ensures
        line_start(statements, i + 1) <= line_start(statements, j),
    decreases j - i,
{
    if i + 1 < j {
        lemma_lines_in_order(statements, i, j - 1);
        lemma_line_of_statement(statements, j - 1);
    }
}

} // verus!
