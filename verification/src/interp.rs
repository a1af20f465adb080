//! The text-macro interpreter.
//!
//! A typing macro is free text with embedded bracket commands. Lexing scans
//! left to right: a maximal run of characters without `[` becomes one
//! `Literal` token; on `[`, the text up to the next `]` is matched
//! case-insensitively against a fixed vocabulary (`left`, `right`, `up`,
//! `down`, `enter`, `pause:<N>`). A match becomes a `KeyPress` or `Pause`
//! token; anything else, including an unterminated `[`, is re-emitted
//! verbatim as a `Literal` token, so unrecognized input round-trips.

use vstd::prelude::*;

verus! {

/// A key that a bracket command presses and releases.
#[derive(Debug, Clone, Copy, PartialEq, Eq)]
pub enum Key {
    Left,
    Right,
    Up,
    Down,
    Enter,
}

/// One unit of a lexed macro, consumed in order by a keyboard sink.
#[derive(Debug, Clone, PartialEq, Eq)]
pub enum MacroToken {
    /// Text typed as-is, in one action.
    Literal(String),
    /// A key pressed and then released (not held).
    KeyPress(Key),
    /// A pause of the given number of seconds before the next token.
    Pause(u64),
}

/// The mathematical shape of a macro token, over character sequences.
pub enum TokenView {
    Literal(Seq<char>),
    KeyPress(Key),
    Pause(u64),
}

impl View for MacroToken {
    type V = TokenView;

    open spec fn view(&self) -> TokenView {
        match self {
            MacroToken::Literal(s) => TokenView::Literal(s@),
            MacroToken::KeyPress(k) => TokenView::KeyPress(*k),
            MacroToken::Pause(d) => TokenView::Pause(*d),
        }
    }
}

/// The token views of a token list, in order.
pub open spec fn views_of(ts: Seq<MacroToken>) -> Seq<TokenView> {
    ts.map_values(|t: MacroToken| t@)
}

/// The position of the first occurrence of `c` in `s` at or after `from`,
/// if any.
pub open spec fn find_from(s: Seq<char>, c: char, from: int) -> Option<int>
    decreases s.len() - from,
{
    if from < 0 || from >= s.len() {
        None
    } else if s[from] == c {
        Some(from)
    } else {
        find_from(s, c, from + 1)
    }
}

pub proof fn lemma_find_from_bounds(s: Seq<char>, c: char, from: int)
    requires
        find_from(s, c, from) is Some,
    ensures
        from <= find_from(s, c, from).unwrap() < s.len(),
        s[find_from(s, c, from).unwrap()] == c,
    decreases s.len() - from,
{
    if !(from < 0 || from >= s.len()) && s[from] != c {
        lemma_find_from_bounds(s, c, from + 1);
    }
}

/// ASCII lowercasing of a single character; all other characters unchanged.
pub open spec fn lower_char(c: char) -> char {
    if 65 <= c as u32 <= 90 {
        (((c as u32) + 32) as u8) as char
    } else {
        c
    }
}

/// `cmd` spells `word` up to ASCII case (`word` itself is taken literally).
pub open spec fn ci_matches(cmd: Seq<char>, word: Seq<char>) -> bool {
    &&& cmd.len() == word.len()
    &&& forall|k: int| 0 <= k < word.len() ==> lower_char(cmd[k]) == word[k]
}

pub open spec fn word_left() -> Seq<char> {
    seq!['l', 'e', 'f', 't']
}

pub open spec fn word_right() -> Seq<char> {
    seq!['r', 'i', 'g', 'h', 't']
}

pub open spec fn word_up() -> Seq<char> {
    seq!['u', 'p']
}

pub open spec fn word_down() -> Seq<char> {
    seq!['d', 'o', 'w', 'n']
}

pub open spec fn word_enter() -> Seq<char> {
    seq!['e', 'n', 't', 'e', 'r']
}

pub open spec fn word_pause_prefix() -> Seq<char> {
    seq!['p', 'a', 'u', 's', 'e', ':']
}

pub open spec fn is_digit(c: char) -> bool {
    48 <= c as u32 <= 57
}

pub open spec fn digit_val(c: char) -> int {
    c as u32 - 48
}

/// The value of a run of decimal digits, most significant first.
pub open spec fn digits_val(s: Seq<char>) -> int
    decreases s.len(),
{
    if s.len() == 0 {
        0
    } else {
        digits_val(s.drop_last()) * 10 + digit_val(s.last())
    }
}

/// `cmd` is a well-formed pause command: the prefix `pause:` up to case,
/// then at least one digit, and a value that fits the pause field.
pub open spec fn is_pause_cmd(cmd: Seq<char>) -> bool {
    &&& cmd.len() > 6
    &&& ci_matches(cmd.subrange(0, 6), word_pause_prefix())
    &&& forall|k: int| 6 <= k < cmd.len() ==> is_digit(cmd[k])
    &&& digits_val(cmd.subrange(6, cmd.len() as int)) <= u64::MAX
}

/// The token a bracketed command produces, or `None` when the text between
/// the brackets is not in the vocabulary.
pub open spec fn classify(cmd: Seq<char>) -> Option<TokenView> {
    if ci_matches(cmd, word_left()) {
        Some(TokenView::KeyPress(Key::Left))
    } else if ci_matches(cmd, word_right()) {
        Some(TokenView::KeyPress(Key::Right))
    } else if ci_matches(cmd, word_up()) {
        Some(TokenView::KeyPress(Key::Up))
    } else if ci_matches(cmd, word_down()) {
        Some(TokenView::KeyPress(Key::Down))
    } else if ci_matches(cmd, word_enter()) {
        Some(TokenView::KeyPress(Key::Enter))
    } else if is_pause_cmd(cmd) {
        Some(TokenView::Pause(digits_val(cmd.subrange(6, cmd.len() as int)) as u64))
    } else {
        None
    }
}

/// The tokens lexed from `s[from..]`, left to right.
///
/// A literal run before the next `[` is one `Literal` token; a terminated
/// bracket is classified, falling back to a verbatim `Literal` of the whole
/// bracketed text; an unterminated `[` makes the rest one `Literal`.
pub open spec fn spec_lex_from(s: Seq<char>, from: int) -> Seq<TokenView>
    decreases s.len() - from,
        via spec_lex_from_decreases
{
    if from < 0 || from >= s.len() {
        Seq::empty()
    } else {
        match find_from(s, '[', from) {
            None => seq![TokenView::Literal(s.subrange(from, s.len() as int))],
            Some(i) => {
                let pre: Seq<TokenView> = if i > from {
                    seq![TokenView::Literal(s.subrange(from, i))]
                } else {
                    Seq::empty()
                };
                match find_from(s, ']', i) {
                    None => pre + seq![TokenView::Literal(s.subrange(i, s.len() as int))],
                    Some(j) => {
                        let tok: TokenView = match classify(s.subrange(i + 1, j)) {
                            Some(t) => t,
                            None => TokenView::Literal(s.subrange(i, j + 1)),
                        };
                        pre + seq![tok] + spec_lex_from(s, j + 1)
                    },
                }
            },
        }
    }
}

#[via_fn]
proof fn spec_lex_from_decreases(s: Seq<char>, from: int) {
    if 0 <= from < s.len() {
        if let Some(i) = find_from(s, '[', from) {
            lemma_find_from_bounds(s, '[', from);
            if find_from(s, ']', i) is Some {
                lemma_find_from_bounds(s, ']', i);
            }
        }
    }
}

/// The full lexing of a macro string.
pub open spec fn spec_lex(s: Seq<char>) -> Seq<TokenView> {
    spec_lex_from(s, 0)
}

/// Two character sequences that are equal up to ASCII case.
pub open spec fn ci_equal(a: Seq<char>, b: Seq<char>) -> bool {
    &&& a.len() == b.len()
    &&& forall|k: int| 0 <= k < a.len() ==> lower_char(a[k]) == lower_char(b[k])
}

/// Lowercasing is idempotent, so matching a word through `lower_char` sees
/// no difference between two commands that are equal up to ASCII case.
proof fn lemma_ci_matches_respects_case(a: Seq<char>, b: Seq<char>, w: Seq<char>)
    requires
        ci_equal(a, b),
    ensures
        ci_matches(a, w) == ci_matches(b, w),
{
    assert forall|k: int| 0 <= k < a.len() implies lower_char(lower_char(a[k])) == lower_char(
        a[k],
    ) by {}
}

/// Command classification is case-insensitive: two bracketed commands that
/// differ only in ASCII letter case produce the same result.
pub proof fn lemma_classify_case_insensitive(a: Seq<char>, b: Seq<char>)
    requires
        ci_equal(a, b),
    ensures
        classify(a) == classify(b),
{
    lemma_ci_matches_respects_case(a, b, word_left());
    lemma_ci_matches_respects_case(a, b, word_right());
    lemma_ci_matches_respects_case(a, b, word_up());
    lemma_ci_matches_respects_case(a, b, word_down());
    lemma_ci_matches_respects_case(a, b, word_enter());
    if a.len() > 6 {
        assert(ci_equal(a.subrange(0, 6), b.subrange(0, 6)));
        lemma_ci_matches_respects_case(a.subrange(0, 6), b.subrange(0, 6), word_pause_prefix());
        // a digit is unchanged by lowercasing and is never the image of a letter,
        // so digit positions agree exactly between the two commands
        assert forall|k: int| 6 <= k < a.len() && is_digit(a[k]) implies a[k] == b[k] by {
            assert(lower_char(a[k]) == a[k]);
        }
        assert forall|k: int| 6 <= k < a.len() && is_digit(b[k]) implies a[k] == b[k] by {
            assert(lower_char(b[k]) == b[k]);
        }
        if (forall|k: int| 6 <= k < a.len() ==> is_digit(a[k])) || (forall|k: int|
            6 <= k < b.len() ==> is_digit(b[k])) {
            assert(a.subrange(6, a.len() as int) =~= b.subrange(6, b.len() as int));
        }
    }
}

proof fn lemma_views_push(ts: Seq<MacroToken>, t: MacroToken)
    ensures
        views_of(ts.push(t)) == views_of(ts).push(t@),
{
    assert(views_of(ts.push(t)) =~= views_of(ts).push(t@));
}

proof fn lemma_digits_val_nonneg(s: Seq<char>)
    requires
        forall|k: int| 0 <= k < s.len() ==> is_digit(s[k]),
    ensures
        digits_val(s) >= 0,
    decreases s.len(),
{
    if s.len() > 0 {
        lemma_digits_val_nonneg(s.drop_last());
    }
}

/// Appending further digits never decreases the value of a digit run.
proof fn lemma_digits_val_prefix_le(s: Seq<char>, k: int)
    requires
        0 <= k <= s.len(),
        forall|t: int| 0 <= t < s.len() ==> is_digit(s[t]),
    ensures
        digits_val(s.subrange(0, k)) <= digits_val(s),
    decreases s.len() - k,
{
    if k == s.len() {
        assert(s.subrange(0, k) =~= s);
    } else {
        let a = s.subrange(0, k);
        let b = s.subrange(0, k + 1);
        assert(b.drop_last() =~= a);
        assert(forall|t: int| 0 <= t < a.len() ==> is_digit(a[t]));
        lemma_digits_val_nonneg(a);
        lemma_digits_val_prefix_le(s, k + 1);
    }
}

/// The position of the first occurrence of `c` in `s` at or after `from`.
fn find_char(s: &str, c: char, from: usize, n: usize) -> (r: Option<usize>)
    requires
        n == s@.len(),
        from <= n,
    ensures
        match r {
            Some(k) => find_from(s@, c, from as int) == Some(k as int),
            None => find_from(s@, c, from as int) is None,
        },
{
    let mut k: usize = from;
    while k < n
        invariant
            n == s@.len(),
            from <= k <= n,
            find_from(s@, c, from as int) == find_from(s@, c, k as int),
        decreases n - k,
    {
        if s.get_char(k) == c {
            return Some(k);
        }
        k = k + 1;
    }
    None
}

/// Whether `cmd` spells `word` up to ASCII case.
fn eq_ci(cmd: &str, word: &str) -> (r: bool)
    ensures
        r == ci_matches(cmd@, word@),
{
    let nc = cmd.unicode_len();
    let nw = word.unicode_len();
    if nc != nw {
        return false;
    }
    let mut k: usize = 0;
    while k < nw
        invariant
            nc == cmd@.len(),
            nw == word@.len(),
            nc == nw,
            k <= nw,
            forall|t: int| 0 <= t < k ==> lower_char(cmd@[t]) == word@[t],
        decreases nw - k,
    {
        let c = cmd.get_char(k);
        let w = word.get_char(k);
        let v = c as u32;
        let lc: char = if 65 <= v && v <= 90 {
            ((v + 32) as u8) as char
        } else {
            c
        };
        assert(lc == lower_char(cmd@[k as int]));
        if lc != w {
            return false;
        }
        k = k + 1;
    }
    true
}

/// Parses the digit run of a pause command, rejecting non-digits and
/// values that do not fit the pause field.
fn parse_pause(cmd: &str, n: usize) -> (r: Option<u64>)
    requires
        n == cmd@.len(),
        n > 6,
        ci_matches(cmd@.subrange(0, 6), word_pause_prefix()),
    ensures
        match r {
            Some(v) => is_pause_cmd(cmd@) && v == digits_val(
                cmd@.subrange(6, cmd@.len() as int),
            ),
            None => !is_pause_cmd(cmd@),
        },
{
    let ghost whole = cmd@.subrange(6, cmd@.len() as int);
    let mut val: u64 = 0;
    let mut k: usize = 6;
    while k < n
        invariant
            n == cmd@.len(),
            n > 6,
            6 <= k <= n,
            whole == cmd@.subrange(6, cmd@.len() as int),
            forall|t: int| 6 <= t < k ==> is_digit(cmd@[t]),
            val == digits_val(cmd@.subrange(6, k as int)),
        decreases n - k,
    {
        let c = cmd.get_char(k);
        let v = c as u32;
        if !(48 <= v && v <= 57) {
            return None;
        }
        let d: u64 = (v - 48) as u64;
        proof {
            assert(cmd@.subrange(6, k + 1).drop_last() =~= cmd@.subrange(6, k as int));
        }
        if val > (u64::MAX - d) / 10 {
            // the value of the digits seen so far already exceeds the field,
            // and appending the remaining digits can only increase it
            proof {
                assert(val * 10 + d > u64::MAX);
                assert(digits_val(cmd@.subrange(6, k + 1)) > u64::MAX);
                if forall|t: int| 6 <= t < n ==> is_digit(cmd@[t]) {
                    assert(forall|t: int| 0 <= t < whole.len() ==> is_digit(whole[t]));
                    assert(whole.subrange(0, k + 1 - 6) =~= cmd@.subrange(6, k + 1));
                    lemma_digits_val_prefix_le(whole, k + 1 - 6);
                }
            }
            return None;
        }
        val = val * 10 + d;
        k = k + 1;
    }
    proof {
        assert(cmd@.subrange(6, n as int) =~= whole);
    }
    Some(val)
}

/// The token a bracketed command produces, or `None` when the bracketed
/// text is not in the vocabulary and must be re-emitted verbatim.
fn classify_cmd(cmd: &str) -> (r: Option<MacroToken>)
    ensures
        match r {
            Some(t) => classify(cmd@) == Some(t@),
            None => classify(cmd@) is None,
        },
{
    proof {
        reveal_strlit("left");
        reveal_strlit("right");
        reveal_strlit("up");
        reveal_strlit("down");
        reveal_strlit("enter");
        reveal_strlit("pause:");
        assert("left"@ =~= word_left());
        assert("right"@ =~= word_right());
        assert("up"@ =~= word_up());
        assert("down"@ =~= word_down());
        assert("enter"@ =~= word_enter());
        assert("pause:"@ =~= word_pause_prefix());
    }
    if eq_ci(cmd, "left") {
        Some(MacroToken::KeyPress(Key::Left))
    } else if eq_ci(cmd, "right") {
        Some(MacroToken::KeyPress(Key::Right))
    } else if eq_ci(cmd, "up") {
        Some(MacroToken::KeyPress(Key::Up))
    } else if eq_ci(cmd, "down") {
        Some(MacroToken::KeyPress(Key::Down))
    } else if eq_ci(cmd, "enter") {
        Some(MacroToken::KeyPress(Key::Enter))
    } else {
        let n = cmd.unicode_len();
        if n > 6 {
            let prefix = cmd.substring_char(0, 6);
            if eq_ci(prefix, "pause:") {
                match parse_pause(cmd, n) {
                    Some(v) => Some(MacroToken::Pause(v)),
                    None => None,
                }
            } else {
                None
            }
        } else {
            None
        }
    }
}

/// Lexes a macro string into its ordered token sequence.
///
/// This is the whole lexing pass: the result is exactly `spec_lex` of the
/// input, so lexing is a pure function of the text alone.
pub fn interpret(text: &str) -> (tokens: Vec<MacroToken>)
    ensures
        views_of(tokens@) == spec_lex(text@),
{
    let n = text.unicode_len();
    let mut out: Vec<MacroToken> = Vec::new();
    let mut p: usize = 0;
    proof {
        assert(views_of(out@) + spec_lex_from(text@, 0) =~= spec_lex(text@));
    }
    while p < n
        invariant
            n == text@.len(),
            p <= n,
            views_of(out@) + spec_lex_from(text@, p as int) == spec_lex(text@),
        decreases n - p,
    {
        let ghost out0 = out@;
        match find_char(text, '[', p, n) {
            None => {
                let lit = text.substring_char(p, n);
                out.push(MacroToken::Literal(lit.to_owned()));
                proof {
                    lemma_views_push(out0, out@.last());
                    assert(views_of(out@) + spec_lex_from(text@, n as int) =~= spec_lex(
                        text@,
                    ));
                }
                p = n;
            },
            Some(i) => {
                proof {
                    lemma_find_from_bounds(text@, '[', p as int);
                }
                let ghost pre: Seq<TokenView> = if i > p {
                    seq![TokenView::Literal(text@.subrange(p as int, i as int))]
                } else {
                    Seq::empty()
                };
                if i > p {
                    let lit = text.substring_char(p, i);
                    out.push(MacroToken::Literal(lit.to_owned()));
                    proof {
                        lemma_views_push(out0, out@.last());
                    }
                }
                proof {
                    assert(views_of(out@) =~= views_of(out0) + pre);
                }
                let ghost out1 = out@;
                match find_char(text, ']', i, n) {
                    None => {
                        let lit = text.substring_char(i, n);
                        out.push(MacroToken::Literal(lit.to_owned()));
                        proof {
                            lemma_views_push(out1, out@.last());
                            assert(spec_lex_from(text@, p as int) =~= pre + seq![
                                TokenView::Literal(text@.subrange(i as int, n as int)),
                            ]);
                            assert(views_of(out@) + spec_lex_from(text@, n as int) =~= spec_lex(
                                text@,
                            ));
                        }
                        p = n;
                    },
                    Some(j) => {
                        proof {
                            lemma_find_from_bounds(text@, ']', i as int);
                        }
                        let cmd = text.substring_char(i + 1, j);
                        match classify_cmd(cmd) {
                            Some(t) => {
                                out.push(t);
                                proof {
                                    lemma_views_push(out1, out@.last());
                                }
                            },
                            None => {
                                let lit = text.substring_char(i, j + 1);
                                out.push(MacroToken::Literal(lit.to_owned()));
                                proof {
                                    lemma_views_push(out1, out@.last());
                                }
                            },
                        }
                        proof {
                            assert(views_of(out@) + spec_lex_from(text@, j + 1) =~= spec_lex(
                                text@,
                            ));
                        }
                        p = j + 1;
                    },
                }
            },
        }
    }
    proof {
        assert(views_of(out@) =~= spec_lex(text@));
    }
    out
}

/// One synchronous replay of a lexed macro over a keyboard sink.
///
/// Tokens are issued strictly in order; a failure reported for one token
/// aborts the remainder of the invocation. The struct only sequences the
/// replay: the caller performs each action and reports back whether the
/// sink accepted it.
pub struct MacroRun {
    tokens: Vec<MacroToken>,
    next: usize,
    aborted: bool,
}

impl MacroRun {
    /// The tokens this run replays, in order.
    pub closed spec fn spec_tokens(&self) -> Seq<TokenView> {
        views_of(self.tokens@)
    }

    /// The position of the next token to issue.
    pub closed spec fn spec_next(&self) -> int {
        self.next as int
    }

    /// Whether a sink failure has aborted the run.
    pub closed spec fn spec_aborted(&self) -> bool {
        self.aborted
    }

    pub closed spec fn wf(&self) -> bool {
        self.next <= self.tokens@.len()
    }

    /// The token owed to the sink now, if the run is still live.
    pub open spec fn spec_current(&self) -> Option<TokenView> {
        if !self.spec_aborted() && self.spec_next() < self.spec_tokens().len() {
            Some(self.spec_tokens()[self.spec_next()])
        } else {
            None
        }
    }

    pub fn new(tokens: Vec<MacroToken>) -> (r: MacroRun)
        ensures
            r.wf(),
            r.spec_tokens() == views_of(tokens@),
            r.spec_next() == 0,
            !r.spec_aborted(),
    {
        MacroRun { tokens, next: 0, aborted: false }
    }

    /// The next token to issue, or `None` when the run is finished or was
    /// aborted by a sink failure.
    pub fn current(&self) -> (r: Option<&MacroToken>)
        requires
            self.wf(),
        ensures
            match r {
                Some(t) => self.spec_current() == Some(t@),
                None => self.spec_current() is None,
            },
    {
        if !self.aborted && self.next < self.tokens.len() {
            Some(&self.tokens[self.next])
        } else {
            None
        }
    }

    /// Records the sink's verdict on the token just issued. Success moves
    /// on to the next token; failure aborts the remainder of the run, so
    /// no further token is ever issued.
    pub fn advance(&mut self, delivered: bool)
        requires
            old(self).wf(),
            old(self).spec_current() is Some,
        ensures
            final(self).wf(),
            final(self).spec_tokens() == old(self).spec_tokens(),
            delivered ==> {
                &&& final(self).spec_next() == old(self).spec_next() + 1
                &&& final(self).spec_aborted() == old(self).spec_aborted()
            },
            !delivered ==> {
                &&& final(self).spec_aborted()
                &&& final(self).spec_current() is None
            },
    {
        if delivered {
            let n = self.tokens.len();
            assert(self.next < n);
            self.next = self.next + 1;
        } else {
            self.aborted = true;
        }
    }
}

} // verus!
