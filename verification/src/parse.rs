//! Parsing of the listing command's output.
//!
//! The output is a header line followed by one line per network. Each
//! data line carries fixed-width status columns; the network identifier
//! is the whitespace-delimited token that starts right after them. A
//! data line too short to reach that column is a parse failure, reported
//! as such rather than skipped.

use vstd::prelude::*;
use crate::errors::WifiError;

verus! {

/// Width of the fixed status columns that precede the identifier on
/// every data line.
pub const SSID_COLUMN: usize = 6;

/// Index of the first occurrence of `c` in `s`, or `s.len()` if there
/// is none.
pub open spec fn first_at(s: Seq<char>, c: char) -> nat
    decreases s.len(),
{
    if s.len() == 0 {
        0
    } else if s[0] == c {
        0
    } else {
        (1 + first_at(s.skip(1), c)) as nat
    }
}

/// A line with its trailing carriage return, if any, removed.
pub open spec fn strip_cr(line: Seq<char>) -> Seq<char> {
    if line.len() > 0 && line.last() == '\r' {
        line.drop_last()
    } else {
        line
    }
}

/// The lines of `s`: maximal runs between newline characters, a
/// trailing carriage return removed from each, and no empty line after
/// a final newline.
pub open spec fn split_lines(s: Seq<char>) -> Seq<Seq<char>>
    decreases s.len(),
{
    if s.len() == 0 {
        seq![]
    } else {
        let i = first_at(s, '\n');
        if i >= s.len() {
            seq![strip_cr(s)]
        } else {
            seq![strip_cr(s.take(i as int))] + split_lines(s.skip(i + 1 as int))
        }
    }
}

/// The identifier on a data line: the token that starts at the fixed
/// column and runs to the next space or to the end of the line.
pub open spec fn ssid_token(line: Seq<char>) -> Seq<char> {
    let rest = line.skip(SSID_COLUMN as int);
    rest.take(first_at(rest, ' ') as int)
}

/// Every data line (each line but the header) is long enough to reach
/// the identifier column.
pub open spec fn data_lines_ok(lines: Seq<Seq<char>>) -> bool {
    forall|k: int| 1 <= k < lines.len() ==> (#[trigger] lines[k]).len() >= SSID_COLUMN
}

/// The identifiers of all data lines, in listing order.
pub open spec fn ssids_of_lines(lines: Seq<Seq<char>>) -> Seq<Seq<char>> {
    if lines.len() <= 1 {
        seq![]
    } else {
        lines.subrange(1, lines.len() as int).map_values(|l: Seq<char>| ssid_token(l))
    }
}

/// The identifiers named by a whole listing output.
pub open spec fn spec_ssids(s: Seq<char>) -> Seq<Seq<char>> {
    ssids_of_lines(split_lines(s))
}

/// `first_at` is pinned down by its two defining facts: nothing before
/// position `j` is `c`, and position `j` either holds `c` or is the end.
proof fn lemma_first_at_is(s: Seq<char>, c: char, j: int)
    requires
        0 <= j <= s.len(),
        forall|k: int| 0 <= k < j ==> s[k] != c,
        j < s.len() ==> s[j] == c,
    ensures
        first_at(s, c) == j,
    decreases j,
{
    if j == 0 {
    } else {
        assert(s[0] != c);
        assert forall|k: int| 0 <= k < j - 1 implies s.skip(1)[k] != c by {
            assert(s.skip(1)[k] == s[k + 1]);
        }
        if j - 1 < s.skip(1).len() {
            assert(s.skip(1)[j - 1] == s[j]);
        }
        lemma_first_at_is(s.skip(1), c, j - 1);
    }
}

/// Extracts the network identifiers from the listing output: the first
/// line is the column header and is discarded; each following line
/// yields the token at the fixed column. The first line too short to
/// reach that column is reported as a parse failure.
#[verifier::rlimit(100)]
pub fn get_ssids(wifi_list: &str) -> (r: Result<Vec<String>, WifiError>)
    ensures
        r is Ok <==> data_lines_ok(split_lines(wifi_list@)),
        r is Ok ==> r->Ok_0.deep_view() == spec_ssids(wifi_list@),
        r is Err ==> (r->Err_0 matches WifiError::Parse(bad) && {
            let lines = split_lines(wifi_list@);
            exists|k: int|
                1 <= k < lines.len() && bad@ == lines[k] && lines[k].len() < SSID_COLUMN
                    && (forall|m: int| 1 <= m < k ==> (#[trigger] lines[m]).len() >= SSID_COLUMN)
        }),
{
    let n: usize = wifi_list.unicode_len();
    let mut out: Vec<String> = Vec::new();
    let mut i: usize = 0;
    let mut lineno: usize = 0;
    let ghost mut done: Seq<Seq<char>> = seq![];
    proof {
        assert(wifi_list@.skip(0) =~= wifi_list@);
        assert(split_lines(wifi_list@) =~= done + split_lines(wifi_list@.skip(0)));
    }
    while i < n
        invariant
            n == wifi_list@.len(),
            i <= n,
            split_lines(wifi_list@) == done + split_lines(wifi_list@.skip(i as int)),
            done.len() == lineno,
            lineno <= i,
            data_lines_ok(done),
            out.deep_view() == ssids_of_lines(done),
            lineno == 0 ==> i == 0 && out@.len() == 0,
        decreases n - i,
    {
        // Find the end of the current line.
        let mut j: usize = i;
        while j < n && wifi_list.get_char(j) != '\n'
            invariant
                n == wifi_list@.len(),
                i <= j <= n,
                forall|k: int| i <= k < j ==> wifi_list@[k] != '\n',
            decreases n - j,
        {
            j = j + 1;
        }
        let ghost rest = wifi_list@.skip(i as int);
        proof {
            assert forall|k: int| 0 <= k < j - i implies rest[k] != '\n' by {
                assert(rest[k] == wifi_list@[i + k]);
            }
            if j < n {
                assert(rest[j - i] == wifi_list@[j as int]);
            }
            lemma_first_at_is(rest, '\n', j - i);
        }
        // Drop a trailing carriage return from the line's content.
        let j_eff: usize = if j > i && wifi_list.get_char(j - 1) == '\r' {
            j - 1
        } else {
            j
        };
        let ghost line = strip_cr(if j == n { rest } else { rest.take(j - i) });
        proof {
            if j == n {
                assert(rest =~= wifi_list@.subrange(i as int, j as int));
                assert(split_lines(rest) =~= seq![line]);
            } else {
                assert(rest.take(j - i) =~= wifi_list@.subrange(i as int, j as int));
                assert(rest.skip(j - i + 1) =~= wifi_list@.skip(j + 1));
                assert(split_lines(rest) =~= seq![line] + split_lines(wifi_list@.skip(j + 1)));
            }
            // The line's content, carriage return stripped, runs from i to j_eff.
            if j > i && wifi_list@[j - 1] == '\r' {
                assert(wifi_list@.subrange(i as int, j as int).last() == '\r');
                assert(wifi_list@.subrange(i as int, j as int).drop_last() =~= wifi_list@.subrange(
                    i as int,
                    j_eff as int,
                ));
            }
            assert(line =~= wifi_list@.subrange(i as int, j_eff as int));
        }
        if lineno > 0 {
            // A data line: it must reach the identifier column.
            if j_eff - i < SSID_COLUMN {
                let bad = wifi_list.substring_char(i, j_eff).to_owned();
                proof {
                    let lines = split_lines(wifi_list@);
                    let kk = done.len() as int;
                    assert(lines[kk] == line);
                    assert(1 <= kk < lines.len());
                    assert(bad@ == lines[kk]);
                    assert(lines[kk].len() < SSID_COLUMN);
                    assert forall|m: int| 1 <= m < kk implies (#[trigger] lines[m]).len()
                        >= SSID_COLUMN by {
                        assert(lines[m] == done[m]);
                    }
                    assert(exists|k: int|
                        1 <= k < lines.len() && bad@ == lines[k] && lines[k].len() < SSID_COLUMN
                            && (forall|m: int|
                            1 <= m < k ==> (#[trigger] lines[m]).len() >= SSID_COLUMN)) by {
                        assert(1 <= kk < lines.len() && bad@ == lines[kk] && lines[kk].len()
                            < SSID_COLUMN && (forall|m: int|
                            1 <= m < kk ==> (#[trigger] lines[m]).len() >= SSID_COLUMN));
                    }
                    assert(!data_lines_ok(lines));
                }
                return Err(WifiError::Parse(bad));
            }
            // Scan for the space that ends the identifier token.
            let mut k: usize = i + SSID_COLUMN;
            while k < j_eff && wifi_list.get_char(k) != ' '
                invariant
                    n == wifi_list@.len(),
                    i + SSID_COLUMN <= k <= j_eff <= n,
                    forall|m: int| i + SSID_COLUMN <= m < k ==> wifi_list@[m] != ' ',
                decreases j_eff - k,
            {
                k = k + 1;
            }
            let ghost tok_rest = line.skip(SSID_COLUMN as int);
            proof {
                assert(tok_rest =~= wifi_list@.subrange(i + SSID_COLUMN, j_eff as int));
                assert forall|m: int| 0 <= m < k - (i + SSID_COLUMN) implies tok_rest[m]
                    != ' ' by {
                    assert(tok_rest[m] == wifi_list@[i + SSID_COLUMN + m]);
                }
                if k < j_eff {
                    assert(tok_rest[k - (i + SSID_COLUMN)] == wifi_list@[k as int]);
                }
                lemma_first_at_is(tok_rest, ' ', k - (i + SSID_COLUMN));
                assert(ssid_token(line) =~= wifi_list@.subrange(i + SSID_COLUMN, k as int));
            }
            let ssid = wifi_list.substring_char(i + SSID_COLUMN, k).to_owned();
            out.push(ssid);
        }
        proof {
            let done1 = done.push(line);
            if done1.len() <= 1 {
                assert(ssids_of_lines(done1) =~~= Seq::<Seq<char>>::empty());
                assert(out.deep_view() =~~= ssids_of_lines(done1));
            } else {
                assert(done1.subrange(1, done1.len() as int) =~= done.subrange(
                    1,
                    done.len() as int,
                ).push(line));
                assert(ssids_of_lines(done1) =~~= ssids_of_lines(done).push(ssid_token(line)));
                assert(out.deep_view() =~~= ssids_of_lines(done1));
            }
            assert forall|k2: int| 1 <= k2 < done1.len() implies (#[trigger] done1[k2]).len()
                >= SSID_COLUMN by {
                if k2 < done.len() {
                    assert(done1[k2] == done[k2]);
                } else {
                    assert(done1[k2] == line);
                }
            }
            assert(data_lines_ok(done1));
            done = done1;
        }
        lineno = lineno + 1;
        if j == n {
            proof {
                assert(split_lines(wifi_list@) =~~= done);
                assert(data_lines_ok(split_lines(wifi_list@)));
            }
            return Ok(out);
        }
        proof {
            assert(done + split_lines(wifi_list@.skip(j + 1)) =~~= split_lines(wifi_list@));
        }
        i = j + 1;
    }
    proof {
        assert(wifi_list@.skip(i as int) =~= Seq::<char>::empty());
        assert(split_lines(wifi_list@) =~~= done);
    }
    Ok(out)
}

} // verus!
