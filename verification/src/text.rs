//! Small verified text building blocks: decimal rendering, trimming a trailing
//! run of slashes, and joining with a separator.

use vstd::prelude::*;

verus! {

/// The character of a decimal digit.
pub open spec fn digit_char(d: nat) -> char {
    (48 + d) as char
}

/// The decimal rendering of `n`, without sign or leading zeros.
pub open spec fn decimal(n: nat) -> Seq<char>
    decreases n,
{
    if n < 10 {
        seq![digit_char(n)]
    } else {
        decimal(n / 10) + seq![digit_char(n % 10)]
    }
}

/// A rendering has one character per digit: a single one below ten, more above.
pub proof fn lemma_decimal_len(n: nat)
    ensures
        decimal(n).len() >= 1,
        n < 10 <==> decimal(n).len() == 1,
    decreases n,
{
    if n >= 10 {
        lemma_decimal_len(n / 10);
    }
}

/// Distinct numbers are rendered as distinct texts, so an id shown in a
/// listing names one config and no other.
pub proof fn lemma_decimal_injective(a: nat, b: nat)
    ensures
        decimal(a) == decimal(b) ==> a == b,
    decreases a,
{
    lemma_decimal_len(a);
    lemma_decimal_len(b);
    if decimal(a) == decimal(b) {
        if a < 10 {
            assert(decimal(a)[0] == decimal(b)[0]);
            assert(digit_char(a) as int == 48 + a);
            assert(digit_char(b) as int == 48 + b);
        } else {
            let da = decimal(a);
            let db = decimal(b);
            assert(da.last() == db.last());
            assert(digit_char(a % 10) as int == 48 + a % 10);
            assert(digit_char(b % 10) as int == 48 + b % 10);
            assert(da.drop_last() =~= decimal(a / 10));
            assert(db.drop_last() =~= decimal(b / 10));
            lemma_decimal_injective(a / 10, b / 10);
        }
    }
}

/// `s` with every trailing `/` removed.
pub open spec fn trim_end_slashes(s: Seq<char>) -> Seq<char>
    decreases s.len(),
{
    if s.len() > 0 && s.last() == '/' {
        trim_end_slashes(s.drop_last())
    } else {
        s
    }
}

/// Trimming trailing slashes twice is trimming them once.
pub proof fn lemma_trim_idempotent(s: Seq<char>)
    ensures
        trim_end_slashes(trim_end_slashes(s)) == trim_end_slashes(s),
    decreases s.len(),
{
    if s.len() > 0 && s.last() == '/' {
        lemma_trim_idempotent(s.drop_last());
    }
}

/// A slash appended to a text is trimmed away with the text's own.
pub proof fn lemma_trim_appended_slash(s: Seq<char>)
    ensures
        trim_end_slashes(s + seq!['/']) == trim_end_slashes(s),
{
    assert((s + seq!['/']).drop_last() =~= s);
}

/// Trimming removes a run of slashes from the end and nothing else: the
/// result is a prefix of the text, does not end with a slash, and every
/// character removed is a slash.
pub proof fn lemma_trim_removes_only_trailing_slashes(s: Seq<char>)
    ensures
        trim_end_slashes(s).len() <= s.len(),
        trim_end_slashes(s) == s.subrange(0, trim_end_slashes(s).len() as int),
        trim_end_slashes(s).len() == 0 || trim_end_slashes(s).last() != '/',
        forall|i: int| trim_end_slashes(s).len() <= i < s.len() ==> s[i] == '/',
    decreases s.len(),
{
    if s.len() > 0 && s.last() == '/' {
        lemma_trim_removes_only_trailing_slashes(s.drop_last());
        let t = trim_end_slashes(s.drop_last());
        assert(t == s.drop_last().subrange(0, t.len() as int));
        assert(t =~= s.subrange(0, t.len() as int));
        assert forall|i: int| t.len() <= i < s.len() implies s[i] == '/' by {
            if i < s.len() - 1 {
                assert(s.drop_last()[i] == s[i]);
            }
        }
    } else {
        assert(s =~= s.subrange(0, s.len() as int));
    }
}

/// Joining one part gives it; joining one more part appends the separator
/// and that part.
pub proof fn lemma_join_parts(parts: Seq<Seq<char>>, sep: Seq<char>, next: Seq<char>)
    ensures
        join(seq![next], sep) == next,
        join(Seq::<Seq<char>>::empty(), sep) == Seq::<char>::empty(),
        parts.len() > 0 ==> join(parts.push(next), sep) == join(parts, sep) + sep + next,
{
    assert(parts.push(next).drop_last() =~= parts);
}

/// The parts, in order, with `sep` between each two neighbours.
pub open spec fn join(parts: Seq<Seq<char>>, sep: Seq<char>) -> Seq<char>
    decreases parts.len(),
{
    if parts.len() == 0 {
        Seq::empty()
    } else if parts.len() == 1 {
        parts[0]
    } else {
        join(parts.drop_last(), sep) + sep + parts.last()
    }
}

/// The one-character text of a decimal digit.
fn digit_text(d: u32) -> (s: &'static str)
    requires
        d < 10,
    ensures
        s@ == seq![digit_char(d as nat)],
{
    match d {
        0 => {
            proof { reveal_strlit("0"); }
            "0"
        },
        1 => {
            proof { reveal_strlit("1"); }
            "1"
        },
        2 => {
            proof { reveal_strlit("2"); }
            "2"
        },
        3 => {
            proof { reveal_strlit("3"); }
            "3"
        },
        4 => {
            proof { reveal_strlit("4"); }
            "4"
        },
        5 => {
            proof { reveal_strlit("5"); }
            "5"
        },
        6 => {
            proof { reveal_strlit("6"); }
            "6"
        },
        7 => {
            proof { reveal_strlit("7"); }
            "7"
        },
        8 => {
            proof { reveal_strlit("8"); }
            "8"
        },
        _ => {
            proof { reveal_strlit("9"); }
            "9"
        },
    }
}

/// Renders `n` in decimal, as `Display` for integers does.
pub fn decimal_text(n: u32) -> (s: String)
    ensures
        s@ == decimal(n as nat),
    decreases n,
{
    if n < 10 {
        String::from_str(digit_text(n))
    } else {
        let mut s = decimal_text(n / 10);
        s.append(digit_text(n % 10));
        s
    }
}

/// `s` with every trailing `/` removed, as `str::trim_end_matches('/')` gives it.
pub fn trim_end_slashes_text(s: &str) -> (t: &str)
    ensures
        t@ == trim_end_slashes(s@),
{
    let len = s.unicode_len();
    let mut end = len;
    assert(s@.subrange(0, len as int) =~= s@);
    while end > 0 && s.get_char(end - 1) == '/'
        invariant
            len == s@.len(),
            end <= len,
            trim_end_slashes(s@.subrange(0, end as int)) == trim_end_slashes(s@),
        decreases end,
    {
        assert(s@.subrange(0, end as int).drop_last() =~= s@.subrange(0, end - 1));
        end = end - 1;
    }
    s.substring_char(0, end)
}

/// The parts joined with `sep`, as `[String]::join` gives it.
pub fn join_text(parts: &Vec<String>, sep: &str) -> (s: String)
    ensures
        s@ == join(parts@.map_values(|p: String| p@), sep@),
{
    let ghost views = parts@.map_values(|p: String| p@);
    let mut s = String::new();
    let mut i: usize = 0;
    while i < parts.len()
        invariant
            i <= parts.len(),
            views == parts@.map_values(|p: String| p@),
            s@ == join(views.take(i as int), sep@),
        decreases parts.len() - i,
    {
        assert(views.take(i + 1).drop_last() =~= views.take(i as int));
        if i > 0 {
            s.append(sep);
        }
        s.append(parts[i].as_str());
        i = i + 1;
    }
    assert(views.take(parts.len() as int) =~= views);
    s
}

} // verus!
