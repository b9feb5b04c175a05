//! String utilities the engine's user-facing text is specified with:
//! splitting on a separator, joining with a separator, indenting every line
//! of a block of text, and decimal rendering/parsing of step indices.

use vstd::prelude::*;

verus! {

/// A run of `n` spaces.
pub open spec fn spaces(n: nat) -> Seq<char>
    decreases n,
{
    if n == 0 {
        Seq::empty()
    } else {
        spaces((n - 1) as nat) + seq![' ']
    }
}

/// Index of the first occurrence of `sep` in `s`, or `s.len()` if absent.
pub open spec fn sep_break(s: Seq<char>, sep: char) -> int
    decreases s.len(),
{
    if s.len() == 0 {
        0
    } else if s[0] == sep {
        0
    } else {
        1 + sep_break(s.drop_first(), sep)
    }
}

/// The pieces of `s` between occurrences of `sep`, as `str::split` yields
/// them: always at least one piece, and empty pieces are kept.
pub open spec fn split_on(s: Seq<char>, sep: char) -> Seq<Seq<char>>
    decreases s.len(),
    via split_on_decreases
{
    let b = sep_break(s, sep);
    if b == s.len() {
        seq![s]
    } else {
        seq![s.take(b)] + split_on(s.skip(b + 1), sep)
    }
}

#[via_fn]
proof fn split_on_decreases(s: Seq<char>, sep: char) {
    lemma_sep_break_bounds(s, sep);
}

/// A line piece with the carriage return dropped from its end, as
/// `str::lines` drops one standing immediately before a line break.
pub open spec fn strip_cr(line: Seq<char>) -> Seq<char> {
    if line.len() > 0 && line.last() == '\r' {
        line.drop_last()
    } else {
        line
    }
}

/// The lines of `s`, as `str::lines` yields them: split at `'\n'`, with a
/// carriage return immediately before each break dropped, a single trailing
/// break producing no extra empty line, and the empty text having no lines
/// at all. A carriage return not followed by `'\n'` stays in its line.
pub open spec fn lines_of(s: Seq<char>) -> Seq<Seq<char>> {
    if s.len() == 0 {
        Seq::empty()
    } else if s.last() == '\n' {
        split_on(s.drop_last(), '\n').map_values(|line: Seq<char>| strip_cr(line))
    } else {
        let parts = split_on(s, '\n');
        parts.drop_last().map_values(|line: Seq<char>| strip_cr(line)).push(parts.last())
    }
}

/// The pieces of `parts` concatenated with `sep` between consecutive pieces.
pub open spec fn join_with(parts: Seq<Seq<char>>, sep: char) -> Seq<char>
    decreases parts.len(),
{
    if parts.len() == 0 {
        Seq::empty()
    } else if parts.len() == 1 {
        parts[0]
    } else {
        parts[0] + seq![sep] + join_with(parts.drop_first(), sep)
    }
}

/// Every line of `s`, prefixed with `n` spaces and joined back together.
pub open spec fn indent_text(s: Seq<char>, n: nat) -> Seq<char> {
    join_with(lines_of(s).map_values(|line: Seq<char>| spaces(n) + line), '\n')
}

proof fn lemma_sep_break_bounds(s: Seq<char>, sep: char)
    ensures
        0 <= sep_break(s, sep) <= s.len(),
        forall|k: int| 0 <= k < sep_break(s, sep) ==> s[k] != sep,
        sep_break(s, sep) < s.len() ==> s[sep_break(s, sep)] == sep,
    decreases s.len(),
{
    if s.len() != 0 && s[0] != sep {
        lemma_sep_break_bounds(s.drop_first(), sep);
        assert forall|k: int| 0 <= k < sep_break(s, sep) implies s[k] != sep by {
            if k > 0 {
                assert(s[k] == s.drop_first()[k - 1]);
            }
        }
    }
}

proof fn lemma_sep_break_unique(s: Seq<char>, sep: char, b: int)
    requires
        0 <= b <= s.len(),
        forall|k: int| 0 <= k < b ==> s[k] != sep,
        b < s.len() ==> s[b] == sep,
    ensures
        sep_break(s, sep) == b,
    decreases s.len(),
{
    if s.len() == 0 {
    } else if s[0] == sep {
    } else {
        assert(b != 0);
        let t = s.drop_first();
        assert(forall|k: int| 0 <= k < b - 1 ==> t[k] != sep);
        lemma_sep_break_unique(t, sep, b - 1);
    }
}

/// Joining the pieces that splitting produced gives the original text back.
pub proof fn lemma_join_split(s: Seq<char>, sep: char)
    ensures
        join_with(split_on(s, sep), sep) == s,
    decreases s.len(),
{
    lemma_sep_break_bounds(s, sep);
    let b = sep_break(s, sep);
    if b == s.len() {
    } else {
        let rest = s.skip(b + 1);
        lemma_join_split(rest, sep);
        let parts = split_on(s, sep);
        assert(split_on(rest, sep).len() >= 1);
        assert(parts.drop_first() =~= split_on(rest, sep));
        assert(join_with(parts, sep) == s.take(b) + seq![sep] + rest);
        assert(s.take(b) + seq![sep] + rest =~= s);
    }
}

/// Appending one more piece extends a join by the separator and the piece.
pub proof fn lemma_join_with_push(parts: Seq<Seq<char>>, p: Seq<char>, sep: char)
    ensures
        join_with(parts.push(p), sep) == if parts.len() == 0 {
            p
        } else {
            join_with(parts, sep) + seq![sep] + p
        },
    decreases parts.len(),
{
    if parts.len() == 0 {
        assert(parts.push(p)[0] == p);
    } else {
        assert(parts.push(p).drop_first() =~= parts.drop_first().push(p));
        lemma_join_with_push(parts.drop_first(), p, sep);
        if parts.len() == 1 {
            assert(join_with(parts.drop_first().push(p), sep) == p);
            assert(parts.push(p)[0] == parts[0]);
        } else {
            assert(parts[0] + seq![sep] + (join_with(parts.drop_first(), sep) + seq![sep] + p)
                =~= (parts[0] + seq![sep] + join_with(parts.drop_first(), sep)) + seq![sep] + p);
        }
    }
}

/// Locate the first occurrence of `sep` in `s` at or after `from`,
/// returning `s`'s character length when there is none.
pub fn find_char(s: &str, from: usize, sep: char) -> (j: usize)
    requires
        from <= s@.len(),
    ensures
        from <= j <= s@.len(),
        forall|k: int| from <= k < j ==> s@[k] != sep,
        j < s@.len() ==> s@[j as int] == sep,
{
    let len = s.unicode_len();
    let mut j = from;
    while j < len
        invariant
            from <= j <= len,
            len == s@.len(),
            forall|k: int| from <= k < j ==> s@[k] != sep,
        decreases len - j,
    {
        if s.get_char(j) == sep {
            return j;
        }
        j = j + 1;
    }
    j
}

/// Split `s` at every occurrence of `sep`, keeping empty pieces, as
/// `str::split` does with a one-character pattern.
pub fn split_str(s: &str, sep: char) -> (parts: Vec<String>)
    ensures
        parts.deep_view() == split_on(s@, sep),
{
    let len = s.unicode_len();
    let mut parts: Vec<String> = Vec::new();
    let mut pos: usize = 0;
    proof {
        assert(s@.skip(0) =~= s@);
        assert(parts.deep_view() + split_on(s@, sep) =~= split_on(s@, sep));
    }
    loop
        invariant_except_break
            split_on(s@, sep) == parts.deep_view() + split_on(s@.skip(pos as int), sep),
        invariant
            pos <= len,
            len == s@.len(),
        ensures
            parts.deep_view() == split_on(s@, sep),
        decreases len - pos,
    {
        let j = find_char(s, pos, sep);
        let piece = s.substring_char(pos, j).to_owned();
        proof {
            let t = s@.skip(pos as int);
            assert(forall|k: int| 0 <= k < j - pos ==> t[k] != sep);
            lemma_sep_break_unique(t, sep, j - pos);
            assert(piece@ =~= t.take(j - pos));
            let dv = parts.deep_view();
            if j == len {
                assert(t.take(j - pos) =~= t);
                assert(split_on(t, sep) == seq![t]);
                assert(dv + seq![t] =~= dv.push(piece@));
            } else {
                assert(t.skip(j - pos + 1) =~= s@.skip(j + 1));
                assert(split_on(t, sep) == seq![piece@] + split_on(s@.skip(j + 1), sep));
                assert(dv + (seq![piece@] + split_on(s@.skip(j + 1), sep))
                    =~= dv.push(piece@) + split_on(s@.skip(j + 1), sep));
            }
        }
        let ghost old_dv = parts.deep_view();
        let ghost piece_view = piece@;
        parts.push(piece);
        proof {
            assert(parts.deep_view() =~= old_dv.push(piece_view));
        }
        if j == len {
            proof {
                assert(parts.deep_view() =~= old_dv + seq![piece_view]);
            }
            break;
        }
        pos = j + 1;
    }
    parts
}

/// Join the pieces with the one-character separator `sep` between
/// consecutive pieces, as `[String]::join` does.
pub fn join_strs(parts: &Vec<String>, sep: &str) -> (joined: String)
    requires
        sep@.len() == 1,
    ensures
        joined@ == join_with(parts.deep_view(), sep@[0]),
{
    let mut joined = String::new();
    let n = parts.len();
    let mut i: usize = 0;
    while i < n
        invariant
            i <= n,
            n == parts@.len(),
            sep@.len() == 1,
            joined@ == join_with(parts.deep_view().take(i as int), sep@[0]),
        decreases n - i,
    {
        if i > 0 {
            joined.append(sep);
        }
        joined.append(parts[i].as_str());
        proof {
            let dv = parts.deep_view();
            lemma_join_with_push(dv.take(i as int), dv[i as int], sep@[0]);
            assert(dv.take(i + 1) =~= dv.take(i as int).push(dv[i as int]));
            assert(seq![sep@[0]] =~= sep@);
        }
        i = i + 1;
    }
    proof {
        assert(parts.deep_view().take(n as int) =~= parts.deep_view());
    }
    joined
}

/// Text that can be indented: every one of its lines gains a prefix of
/// spaces, as the tool does when it prints a preview or a retry command.
pub trait Indent: View<V = Seq<char>> + Sized {
    /// The text with every line prefixed by `n` spaces.
    fn indent(&self, n: u32) -> (r: Self)
        ensures
            r@ == indent_text(self@, n as nat),
    ;
}

impl Indent for String {
    fn indent(&self, n: u32) -> (r: String) {
        let len = self.as_str().unicode_len();
        if len == 0 {
            proof {
                assert(lines_of(self@).map_values(|line: Seq<char>| spaces(n as nat) + line)
                    =~= Seq::<Seq<char>>::empty());
            }
            return String::new();
        }
        let ends_with_break = self.as_str().get_char(len - 1) == '\n';
        let base: &str = if ends_with_break {
            self.as_str().substring_char(0, len - 1)
        } else {
            self.as_str().substring_char(0, len)
        };
        proof {
            if self@.last() == '\n' {
                assert(base@ =~= self@.drop_last());
            } else {
                assert(base@ =~= self@);
            }
        }
        let lines = split_str(base, '\n');
        let mut pad = String::new();
        let mut i: u32 = 0;
        while i < n
            invariant
                i <= n,
                pad@ == spaces(i as nat),
            decreases n - i,
        {
            pad.append(" ");
            proof {
                reveal_strlit(" ");
                assert(" "@ =~= seq![' ']);
            }
            i = i + 1;
        }
        proof {
            let parts = lines.deep_view();
            assert(parts.len() >= 1);
            assert(lines_of(self@).len() == parts.len());
        }
        let mut prefixed: Vec<String> = Vec::new();
        let m = lines.len();
        let mut k: usize = 0;
        while k < m
            invariant
                k <= m,
                m == lines@.len(),
                m == lines_of(self@).len(),
                pad@ == spaces(n as nat),
                ends_with_break == (self@.len() > 0 && self@.last() == '\n'),
                self@.len() > 0,
                lines.deep_view() == (if ends_with_break {
                    split_on(self@.drop_last(), '\n')
                } else {
                    split_on(self@, '\n')
                }),
                prefixed.deep_view() == lines_of(self@).take(k as int).map_values(
                    |line: Seq<char>| spaces(n as nat) + line,
                ),
            decreases m - k,
        {
            let piece = &lines[k];
            let piece_len = piece.as_str().unicode_len();
            // Every line that the text terminated with a break loses a
            // carriage return standing before that break; a final
            // unterminated line keeps its characters as they are.
            let terminated = ends_with_break || k + 1 < m;
            let stripped: &str = if terminated && piece_len > 0 && piece.as_str().get_char(
                piece_len - 1,
            ) == '\r' {
                piece.as_str().substring_char(0, piece_len - 1)
            } else {
                piece.as_str()
            };
            proof {
                let parts = lines.deep_view();
                let lns = lines_of(self@);
                if ends_with_break {
                    assert(lns[k as int] == strip_cr(parts[k as int]));
                } else if k + 1 < m {
                    assert(lns[k as int] == strip_cr(parts.drop_last()[k as int]));
                    assert(parts.drop_last()[k as int] == parts[k as int]);
                } else {
                    assert(lns[k as int] == parts.last());
                }
                if terminated && piece@.len() > 0 && piece@.last() == '\r' {
                    assert(stripped@ =~= strip_cr(piece@));
                } else {
                    assert(stripped@ == piece@);
                    if terminated {
                        assert(strip_cr(piece@) == piece@);
                    }
                }
                assert(stripped@ == lns[k as int]);
            }
            let mut p = pad.clone();
            p.append(stripped);
            let ghost pv = p@;
            prefixed.push(p);
            proof {
                let lns = lines_of(self@);
                let f = |line: Seq<char>| spaces(n as nat) + line;
                assert(prefixed.deep_view() =~= lns.take(k as int).map_values(f).push(pv));
                assert(lns.take(k + 1).map_values(f) =~= lns.take(k as int).map_values(f).push(
                    f(lns[k as int]),
                ));
            }
            k = k + 1;
        }
        proof {
            reveal_strlit("\n");
        }
        let joined = join_strs(&prefixed, "\n");
        proof {
            assert("\n"@ =~= seq!['\n']);
            assert(lines_of(self@).take(m as int) =~= lines_of(self@));
            assert(prefixed.deep_view() =~= lines_of(self@).map_values(
                |line: Seq<char>| spaces(n as nat) + line,
            ));
        }
        joined
    }
}

/// The decimal digit `d` as a character; meaningful for `d < 10`.
pub open spec fn digit_char(d: nat) -> char {
    if d == 0 {
        '0'
    } else if d == 1 {
        '1'
    } else if d == 2 {
        '2'
    } else if d == 3 {
        '3'
    } else if d == 4 {
        '4'
    } else if d == 5 {
        '5'
    } else if d == 6 {
        '6'
    } else if d == 7 {
        '7'
    } else if d == 8 {
        '8'
    } else {
        '9'
    }
}

/// The usual decimal rendering of `n`, without a sign and without leading
/// zeros (except for `n == 0` itself).
pub open spec fn dec_str(n: nat) -> Seq<char>
    decreases n,
{
    if n < 10 {
        seq![digit_char(n)]
    } else {
        dec_str(n / 10) + seq![digit_char(n % 10)]
    }
}

/// Whether `c` is one of the ten decimal digit characters.
pub open spec fn is_dec_digit(c: char) -> bool {
    '0' as int <= c as int && c as int <= '9' as int
}

/// The numeric value of a decimal digit character.
pub open spec fn digit_val(c: char) -> nat {
    (c as int - '0' as int) as nat
}

/// The numeric value of a sequence of decimal digit characters.
pub open spec fn dec_val(s: Seq<char>) -> nat
    decreases s.len(),
{
    if s.len() == 0 {
        0
    } else {
        dec_val(s.drop_last()) * 10 + digit_val(s.last())
    }
}

/// Whether `s` is a wholly numeric, non-empty piece of text.
pub open spec fn is_dec_string(s: Seq<char>) -> bool {
    s.len() > 0 && forall|i: int| 0 <= i < s.len() ==> is_dec_digit(s[i])
}

/// What parsing `s` as a step index yields: its decimal value when `s` is
/// numeric and the value fits the machine, nothing otherwise.
pub open spec fn parse_dec(s: Seq<char>) -> Option<usize> {
    if is_dec_string(s) && dec_val(s) <= usize::MAX {
        Some(dec_val(s) as usize)
    } else {
        None
    }
}

fn digit_str(d: usize) -> (r: &'static str)
    requires
        d < 10,
    ensures
        r@ == seq![digit_char(d as nat)],
{
    let r: &'static str = if d == 0 {
        "0"
    } else if d == 1 {
        "1"
    } else if d == 2 {
        "2"
    } else if d == 3 {
        "3"
    } else if d == 4 {
        "4"
    } else if d == 5 {
        "5"
    } else if d == 6 {
        "6"
    } else if d == 7 {
        "7"
    } else if d == 8 {
        "8"
    } else {
        "9"
    };
    proof {
        reveal_strlit("0");
        reveal_strlit("1");
        reveal_strlit("2");
        reveal_strlit("3");
        reveal_strlit("4");
        reveal_strlit("5");
        reveal_strlit("6");
        reveal_strlit("7");
        reveal_strlit("8");
        reveal_strlit("9");
        assert(r@ =~= seq![digit_char(d as nat)]);
    }
    r
}

/// Render `n` in decimal, as the retry command and the progress lines do.
pub fn usize_to_string(n: usize) -> (s: String)
    ensures
        s@ == dec_str(n as nat),
    decreases n,
{
    if n < 10 {
        digit_str(n).to_owned()
    } else {
        let mut s = usize_to_string(n / 10);
        s.append(digit_str(n % 10));
        s
    }
}

proof fn lemma_dec_val_prefix_le(s: Seq<char>, k: int)
    requires
        0 <= k <= s.len(),
    ensures
        dec_val(s.take(k)) <= dec_val(s),
    decreases s.len(),
{
    if k == s.len() {
        assert(s.take(k) =~= s);
    } else {
        lemma_dec_val_prefix_le(s.drop_last(), k);
        assert(s.drop_last().take(k) =~= s.take(k));
    }
}

/// Parse a `--from-step` value: the decimal number it spells, if it spells
/// one that fits the machine.
pub fn parse_step_index(s: &str) -> (r: Option<usize>)
    ensures
        r == parse_dec(s@),
{
    let len = s.unicode_len();
    if len == 0 {
        return None;
    }
    let mut value: usize = 0;
    let mut i: usize = 0;
    while i < len
        invariant
            i <= len,
            len == s@.len(),
            len > 0,
            forall|k: int| 0 <= k < i ==> is_dec_digit(s@[k]),
            value == dec_val(s@.take(i as int)),
        decreases len - i,
    {
        let c = s.get_char(i);
        let cu = c as u32;
        if cu < 48 || cu > 57 {
            proof {
                assert(!is_dec_digit(s@[i as int]));
            }
            return None;
        }
        let d = (cu - 48) as usize;
        proof {
            assert(s@.take(i + 1).drop_last() =~= s@.take(i as int));
            assert(s@.take(i + 1).last() == s@[i as int]);
            assert(digit_val(s@[i as int]) == d);
        }
        let next = match value.checked_mul(10) {
            Some(v10) => v10.checked_add(d),
            None => None,
        };
        match next {
            Some(v) => {
                value = v;
            },
            None => {
                proof {
                    assert(dec_val(s@.take(i + 1)) > usize::MAX);
                    lemma_dec_val_prefix_le(s@, i + 1);
                }
                return None;
            },
        }
        i = i + 1;
    }
    proof {
        assert(s@.take(len as int) =~= s@);
    }
    Some(value)
}

proof fn lemma_digit_char_val(d: nat)
    requires
        d < 10,
    ensures
        is_dec_digit(digit_char(d)),
        digit_val(digit_char(d)) == d,
{
}

/// The decimal rendering of a step index parses back to that very index:
/// the `--from-step` value a retry command carries names the failed step
/// exactly, whatever the index was.
pub proof fn lemma_dec_str_parses_back(n: usize)
    ensures
        parse_dec(dec_str(n as nat)) == Some(n),
{
    lemma_dec_str_val(n as nat);
}

proof fn lemma_dec_str_val(m: nat)
    ensures
        dec_val(dec_str(m)) == m,
        is_dec_string(dec_str(m)),
    decreases m,
{
    if m < 10 {
        lemma_digit_char_val(m);
        let s = dec_str(m);
        assert(s.drop_last() =~= Seq::empty());
        assert(dec_val(s) == dec_val(Seq::empty()) * 10 + digit_val(digit_char(m)));
    } else {
        lemma_dec_str_val(m / 10);
        lemma_digit_char_val(m % 10);
        let s = dec_str(m);
        assert(s.drop_last() =~= dec_str(m / 10));
        assert(s.last() == digit_char(m % 10));
        assert(dec_val(s) == (m / 10) * 10 + m % 10);
        assert(forall|i: int| 0 <= i < s.len() - 1 ==> s[i] == dec_str(m / 10)[i]);
    }
}

} // verus!
