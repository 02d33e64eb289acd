//! Small operations on text: decimal numerals, quoting, and the words that
//! cannot be used as identifiers.

use vstd::prelude::*;

verus! {

/// The character of a decimal digit.
pub open spec fn digit_char(d: nat) -> char {
    if d == 0 {
        '0'
    } else if d == 1 {
        '1'
    } else if d == 2 {
        '2'
    } else if d == 3 {
        '3'
    } else if d == 4 {
        '4'
    } else if d == 5 {
        '5'
    } else if d == 6 {
        '6'
    } else if d == 7 {
        '7'
    } else if d == 8 {
        '8'
    } else {
        '9'
    }
}

/// The decimal numeral of `n`, without leading zeros.
pub open spec fn decimal_digits(n: nat) -> Seq<char>
    decreases n,
{
    if n < 10 {
        seq![digit_char(n)]
    } else {
        decimal_digits(n / 10).push(digit_char(n % 10))
    }
}

/// The number that a decimal digit stands for.
pub open spec fn digit_value(c: char) -> nat {
    if c == '1' {
        1
    } else if c == '2' {
        2
    } else if c == '3' {
        3
    } else if c == '4' {
        4
    } else if c == '5' {
        5
    } else if c == '6' {
        6
    } else if c == '7' {
        7
    } else if c == '8' {
        8
    } else if c == '9' {
        9
    } else {
        0
    }
}

/// The number that a decimal numeral stands for.
pub open spec fn decimal_value(s: Seq<char>) -> nat
    decreases s.len(),
{
    if s.len() == 0 {
        0
    } else {
        decimal_value(s.drop_last()) * 10 + digit_value(s.last())
    }
}

/// The numeral of a number stands for that number.
pub proof fn lemma_decimal_value_of_digits(n: nat)
    ensures
        decimal_value(decimal_digits(n)) == n,
    decreases n,
{
    let s = decimal_digits(n);
    if n < 10 {
        assert(s.drop_last() =~= Seq::<char>::empty());
        assert(decimal_value(s.drop_last()) == 0);
    } else {
        lemma_decimal_value_of_digits(n / 10);
        assert(s.drop_last() =~= decimal_digits(n / 10));
    }
}

/// Different numbers have different numerals.
pub proof fn lemma_decimal_digits_distinct(a: nat, b: nat)
    requires
        a != b,
    ensures
        decimal_digits(a) != decimal_digits(b),
        quoted(decimal_digits(a)) != quoted(decimal_digits(b)),
{
    lemma_decimal_value_of_digits(a);
    lemma_decimal_value_of_digits(b);
    let qa = quoted(decimal_digits(a));
    let qb = quoted(decimal_digits(b));
    assert(qa.subrange(1, qa.len() - 1) =~= decimal_digits(a));
    assert(qb.subrange(1, qb.len() - 1) =~= decimal_digits(b));
}

/// A numeral is not empty and holds no underscore.
pub proof fn lemma_decimal_digits_shape(n: nat)
    ensures
        decimal_digits(n).len() >= 1,
        forall|i: int| 0 <= i < decimal_digits(n).len() ==> decimal_digits(n)[i] != '_',
    decreases n,
{
    if n >= 10 {
        lemma_decimal_digits_shape(n / 10);
    }
}

/// A number after an underscore tells texts apart: two texts that end in
/// an underscore and the numerals of different numbers are different,
/// whatever stands before the underscore.
pub proof fn lemma_numbered_texts_distinct(x: Seq<char>, a: nat, y: Seq<char>, b: nat)
    requires
        a != b,
    ensures
        x + seq!['_'] + decimal_digits(a) != y + seq!['_'] + decimal_digits(b),
{
    let da = decimal_digits(a);
    let db = decimal_digits(b);
    let s = x + seq!['_'] + da;
    let t = y + seq!['_'] + db;
    lemma_decimal_digits_shape(a);
    lemma_decimal_digits_shape(b);
    lemma_decimal_digits_distinct(a, b);
    if s == t {
        if da.len() < db.len() {
            let p = s.len() - 1 - da.len();
            assert(s[p] == '_');
            assert(t[p] == db[p - (t.len() - db.len())]);
        } else if db.len() < da.len() {
            let p = t.len() - 1 - db.len();
            assert(t[p] == '_');
            assert(s[p] == da[p - (s.len() - da.len())]);
        } else {
            assert(s.subrange(s.len() - da.len(), s.len() as int) =~= da);
            assert(t.subrange(t.len() - db.len(), t.len() as int) =~= db);
        }
    }
}

/// `s` between two double quotes.
pub open spec fn quoted(s: Seq<char>) -> Seq<char> {
    seq!['"'] + s + seq!['"']
}

fn digit_str(d: usize) -> (s: &'static str)
    requires
        d < 10,
    ensures
        s@ == seq![digit_char(d as nat)],
{
    proof {
        reveal_strlit("0");
        reveal_strlit("1");
        reveal_strlit("2");
        reveal_strlit("3");
        reveal_strlit("4");
        reveal_strlit("5");
        reveal_strlit("6");
        reveal_strlit("7");
        reveal_strlit("8");
        reveal_strlit("9");
    }
    let s = if d == 0 {
        "0"
    } else if d == 1 {
        "1"
    } else if d == 2 {
        "2"
    } else if d == 3 {
        "3"
    } else if d == 4 {
        "4"
    } else if d == 5 {
        "5"
    } else if d == 6 {
        "6"
    } else if d == 7 {
        "7"
    } else if d == 8 {
        "8"
    } else {
        "9"
    };
    assert(s@ =~= seq![digit_char(d as nat)]);
    s
}

/// Writes `n` as a decimal numeral.
pub fn decimal_string(n: usize) -> (s: String)
    ensures
        s@ == decimal_digits(n as nat),
    decreases n,
{
    if n < 10 {
        String::from_str(digit_str(n))
    } else {
        let mut s = decimal_string(n / 10);
        s.append(digit_str(n % 10));
        assert(s@ =~= decimal_digits(n as nat));
        s
    }
}

/// Writes `s` between double quotes.
pub fn quote_string(s: &str) -> (q: String)
    ensures
        q@ == quoted(s@),
{
    proof {
        reveal_strlit("\"");
    }
    let mut q = String::from_str("\"");
    q.append(s);
    q.append("\"");
    assert(q@ =~= quoted(s@));
    q
}

/// What `str::to_lowercase` makes of `s`: each character replaced by its
/// lower case form, as Unicode defines it.
pub uninterp spec fn lowercase(s: Seq<char>) -> Seq<char>;

/// Calls `str::to_lowercase`. The result is a function of the text alone;
/// the contract gives it its name and claims nothing more of it.
#[verifier::external_body]
pub(crate) fn to_lowercase(s: &str) -> (lower: String)
    ensures
        lower@ == lowercase(s@),
{
    s.to_lowercase()
}

/// Whether two strings hold the same text.
pub fn str_eq(a: &str, b: &str) -> (eq: bool)
    ensures
        eq == (a@ == b@),
{
    let x: String = String::from_str(a);
    let y: String = String::from_str(b);
    x == y
}

/// The words that the parser never takes for an identifier: `_` and the
/// keywords of the host language.
#[verifier::opaque]
pub open spec fn is_reserved_word(s: Seq<char>) -> bool {
    ||| s == "_"@
    ||| s == "abstract"@
    ||| s == "as"@
    ||| s == "become"@
    ||| s == "box"@
    ||| s == "break"@
    ||| s == "const"@
    ||| s == "continue"@
    ||| s == "crate"@
    ||| s == "do"@
    ||| s == "else"@
    ||| s == "enum"@
    ||| s == "extern"@
    ||| s == "false"@
    ||| s == "final"@
    ||| s == "fn"@
    ||| s == "for"@
    ||| s == "if"@
    ||| s == "impl"@
    ||| s == "in"@
    ||| s == "let"@
    ||| s == "loop"@
    ||| s == "macro"@
    ||| s == "match"@
    ||| s == "mod"@
    ||| s == "move"@
    ||| s == "mut"@
    ||| s == "override"@
    ||| s == "priv"@
    ||| s == "pub"@
    ||| s == "ref"@
    ||| s == "return"@
    ||| s == "Self"@
    ||| s == "self"@
    ||| s == "static"@
    ||| s == "struct"@
    ||| s == "super"@
    ||| s == "trait"@
    ||| s == "true"@
    ||| s == "type"@
    ||| s == "typeof"@
    ||| s == "unsafe"@
    ||| s == "unsized"@
    ||| s == "use"@
    ||| s == "virtual"@
    ||| s == "where"@
    ||| s == "while"@
    ||| s == "yield"@
}

/// Whether `s` is a reserved word.
pub fn reserved_word(s: &str) -> (b: bool)
    ensures
        b == is_reserved_word(s@),
{
    reveal(is_reserved_word);
    str_eq(s, "_") || str_eq(s, "abstract") || str_eq(s, "as") || str_eq(s, "become") || str_eq(
        s,
        "box",
    ) || str_eq(s, "break") || str_eq(s, "const") || str_eq(s, "continue") || str_eq(s, "crate")
        || str_eq(s, "do") || str_eq(s, "else") || str_eq(s, "enum") || str_eq(s, "extern")
        || str_eq(s, "false") || str_eq(s, "final") || str_eq(s, "fn") || str_eq(s, "for")
        || str_eq(s, "if") || str_eq(s, "impl") || str_eq(s, "in") || str_eq(s, "let") || str_eq(
        s,
        "loop",
    ) || str_eq(s, "macro") || str_eq(s, "match") || str_eq(s, "mod") || str_eq(s, "move")
        || str_eq(s, "mut") || str_eq(s, "override") || str_eq(s, "priv") || str_eq(s, "pub")
        || str_eq(s, "ref") || str_eq(s, "return") || str_eq(s, "Self") || str_eq(s, "self")
        || str_eq(s, "static") || str_eq(s, "struct") || str_eq(s, "super") || str_eq(s, "trait")
        || str_eq(s, "true") || str_eq(s, "type") || str_eq(s, "typeof") || str_eq(s, "unsafe")
        || str_eq(s, "unsized") || str_eq(s, "use") || str_eq(s, "virtual") || str_eq(s, "where")
        || str_eq(s, "while") || str_eq(s, "yield")
}

} // verus!
