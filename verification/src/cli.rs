//! Presentation helpers: the banner and the formatting of one field for
//! table output. Rendering itself (tables, JSON, progress) is left to the
//! caller; the engine never formats its own output.

use vstd::prelude::*;

use crate::strings::{chars_of, string_of};

verus! {

/// The characters removed from a field before it is laid out.
pub open spec fn is_ctl(c: char) -> bool {
    c == '\n' || c == '\r' || c == '\t'
}

/// A field with its line breaks and tabs removed.
pub open spec fn strip_ctl(s: Seq<char>) -> Seq<char>
    decreases s.len(),
{
    if s.len() == 0 {
        Seq::empty()
    } else if is_ctl(s[0]) {
        strip_ctl(s.drop_first())
    } else {
        seq![s[0]] + strip_ctl(s.drop_first())
    }
}

/// A field with each leftmost pair of adjacent spaces collapsed to one, the
/// way one replacement pass over the text works.
pub open spec fn collapse_spaces(s: Seq<char>) -> Seq<char>
    decreases s.len(),
{
    if s.len() < 2 {
        s
    } else if s[0] == ' ' && s[1] == ' ' {
        seq![' '] + collapse_spaces(s.skip(2))
    } else {
        seq![s[0]] + collapse_spaces(s.skip(1))
    }
}

/// A field broken into chunks of `n` characters joined by line breaks.
pub open spec fn chunked(s: Seq<char>, n: nat) -> Seq<char>
    decreases s.len(),
{
    if n == 0 || s.len() <= n {
        s
    } else {
        s.take(n as int) + seq!['\n'] + chunked(s.skip(n as int), n)
    }
}

/// The suffix appended to a truncated field.
pub open spec fn truncation_notice() -> Seq<char> {
    "...\n\n(use --full to show all content)"@
}

/// What formatting a field yields: control characters removed, doubled
/// spaces collapsed, the text broken into `n`-character lines, and, unless
/// full output was asked for, anything beyond 1000 characters replaced by a
/// notice.
pub open spec fn format_spec(s: Seq<char>, full_output: bool, n: nat) -> Seq<char> {
    let laid_out = chunked(collapse_spaces(strip_ctl(s)), n);
    if !full_output && laid_out.len() > 1000 {
        laid_out.take(1000) + truncation_notice()
    } else {
        laid_out
    }
}

/// Formats one field for table output: removes line breaks and tabs,
/// collapses doubled spaces, breaks the text into `length`-character lines,
/// and truncates long output with a notice unless `full_output` is set.
pub fn format_field_length(data: &str, full_output: bool, length: u32) -> (r: String)
    requires
        length >= 1,
    ensures
        r@ == format_spec(data@, full_output, length as nat),
{
    let cs = chars_of(data);
    let n: usize = cs.len();

    let mut stripped: Vec<char> = Vec::new();
    let mut i: usize = 0;
    proof {
        assert(cs@.skip(0) =~= cs@);
    }
    while i < n
        invariant
            0 <= i <= n,
            n == cs.len(),
            strip_ctl(cs@) == stripped@ + strip_ctl(cs@.skip(i as int)),
        decreases n - i,
    {
        let ghost pre = stripped@;
        let c = cs[i];
        if !(c == '\n' || c == '\r' || c == '\t') {
            stripped.push(c);
        }
        proof {
            assert(cs@.skip(i as int).drop_first() =~= cs@.skip(i as int + 1));
            if !is_ctl(cs@[i as int]) {
                assert(stripped@ =~= pre + seq![cs@[i as int]]);
                assert(pre + (seq![cs@[i as int]] + strip_ctl(cs@.skip(i as int + 1)))
                    =~= stripped@ + strip_ctl(cs@.skip(i as int + 1)));
            }
        }
        i += 1;
    }
    proof {
        assert(cs@.skip(n as int) =~= Seq::<char>::empty());
        assert(stripped@ + strip_ctl(cs@.skip(n as int)) =~= stripped@);
    }

    let m: usize = stripped.len();
    let mut collapsed: Vec<char> = Vec::new();
    let mut j: usize = 0;
    proof {
        assert(stripped@.skip(0) =~= stripped@);
    }
    while j < m
        invariant
            0 <= j <= m,
            m == stripped.len(),
            collapse_spaces(stripped@) == collapsed@ + collapse_spaces(stripped@.skip(j as int)),
        decreases m - j,
    {
        let ghost pre = collapsed@;
        let c = stripped[j];
        let ghost rest = stripped@.skip(j as int);
        if j + 1 < m && c == ' ' && stripped[j + 1] == ' ' {
            collapsed.push(' ');
            proof {
                assert(rest.len() >= 2 && rest[0] == ' ' && rest[1] == ' ');
                assert(rest.skip(2) =~= stripped@.skip(j as int + 2));
                assert(collapsed@ =~= pre + seq![' ']);
                assert(pre + (seq![' '] + collapse_spaces(stripped@.skip(j as int + 2)))
                    =~= collapsed@ + collapse_spaces(stripped@.skip(j as int + 2)));
            }
            j += 2;
        } else {
            collapsed.push(c);
            proof {
                assert(rest[0] == stripped@[j as int]);
                assert(rest.skip(1) =~= stripped@.skip(j as int + 1));
                if rest.len() >= 2 {
                    assert(!(rest[0] == ' ' && rest[1] == ' '));
                    assert(collapse_spaces(rest) == seq![rest[0]] + collapse_spaces(rest.skip(1)));
                } else {
                    assert(collapse_spaces(rest) == rest);
                    assert(rest =~= seq![rest[0]] + collapse_spaces(rest.skip(1)));
                }
                assert(collapsed@ =~= pre + seq![stripped@[j as int]]);
                assert(pre + (seq![stripped@[j as int]] + collapse_spaces(
                    stripped@.skip(j as int + 1),
                )) =~= collapsed@ + collapse_spaces(stripped@.skip(j as int + 1)));
            }
            j += 1;
        }
    }
    proof {
        assert(stripped@.skip(m as int) =~= Seq::<char>::empty());
        assert(collapse_spaces(stripped@.skip(m as int)) =~= Seq::<char>::empty());
        assert(collapsed@ + Seq::<char>::empty() =~= collapsed@);
    }

    let step: usize = length as usize;
    let total: usize = collapsed.len();
    let mut laid_out: Vec<char> = Vec::new();
    let mut p: usize = 0;
    proof {
        assert(collapsed@.skip(0) =~= collapsed@);
    }
    while total - p > step
        invariant
            0 <= p <= total,
            total == collapsed.len(),
            step == length as usize,
            step >= 1,
            chunked(collapsed@, length as nat) == laid_out@ + chunked(
                collapsed@.skip(p as int),
                length as nat,
            ),
        decreases total - p,
    {
        let ghost pre = laid_out@;
        let ghost rest = collapsed@.skip(p as int);
        let mut q: usize = 0;
        while q < step
            invariant
                0 <= q <= step,
                p + step < total,
                total == collapsed.len(),
                laid_out@ == pre + collapsed@.skip(p as int).take(q as int),
            decreases step - q,
        {
            laid_out.push(collapsed[p + q]);
            proof {
                assert(collapsed@.skip(p as int).take(q as int + 1) =~= collapsed@.skip(
                    p as int,
                ).take(q as int).push(collapsed@[p + q]));
                assert(laid_out@ =~= pre + collapsed@.skip(p as int).take(q as int + 1));
            }
            q += 1;
        }
        laid_out.push('\n');
        proof {
            assert(rest.len() > length as nat);
            assert(chunked(rest, length as nat) == rest.take(length as int) + seq!['\n'] + chunked(
                rest.skip(length as int),
                length as nat,
            ));
            assert(rest.skip(length as int) =~= collapsed@.skip(p as int + step as int));
            assert(laid_out@ =~= pre + rest.take(length as int) + seq!['\n']);
            assert(pre + (rest.take(length as int) + seq!['\n'] + chunked(
                collapsed@.skip(p as int + step as int),
                length as nat,
            )) =~= laid_out@ + chunked(collapsed@.skip(p as int + step as int), length as nat));
        }
        p += step;
    }
    let ghost tail = collapsed@.skip(p as int);
    proof {
        assert(tail.len() <= length as nat);
        assert(chunked(tail, length as nat) == tail);
    }
    while p < total
        invariant
            0 <= p <= total,
            total == collapsed.len(),
            chunked(collapsed@, length as nat) == laid_out@ + collapsed@.skip(p as int),
        decreases total - p,
    {
        laid_out.push(collapsed[p]);
        proof {
            assert(collapsed@.skip(p as int).drop_first() =~= collapsed@.skip(p as int + 1));
            assert(collapsed@.skip(p as int) =~= seq![collapsed@[p as int]] + collapsed@.skip(
                p as int + 1,
            ));
            assert(laid_out@ + collapsed@.skip(p as int + 1) =~= chunked(
                collapsed@,
                length as nat,
            ));
        }
        p += 1;
    }
    proof {
        assert(collapsed@.skip(total as int) =~= Seq::<char>::empty());
        assert(laid_out@ =~= chunked(collapsed@, length as nat));
    }

    if !full_output && laid_out.len() > 1000 {
        let ghost whole = laid_out@;
        laid_out.truncate(1000);
        proof {
            assert(laid_out@ =~= whole.take(1000));
        }
        let mut notice = chars_of("...\n\n(use --full to show all content)");
        laid_out.append(&mut notice);
    }
    string_of(&laid_out)
}

/// The banner shown before a run.
pub open spec fn spec_title() -> Seq<char> {
    "\nchainsaw - rapidly search and hunt through windows event logs\n"@
}

/// The banner shown before a run.
pub fn print_title() -> (r: String)
    ensures
        r@ == spec_title(),
{
    String::from_str("\nchainsaw - rapidly search and hunt through windows event logs\n")
}

} // verus!
