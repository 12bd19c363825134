//! The text form of a list of position commands, as typed by a user:
//! `(displacement, vel_max[, vel_end])` entries separated by `;`, with an optional
//! trailing `;` and whitespace around every token, e.g. `(10, 300); (-2.5, 100, 0);`.
//! The parser finds where each number stands; turning a number's text into a value
//! is left to the caller.

use vstd::prelude::*;

verus! {

/// Length of the number token (as nom's `float` reads it: an optional sign,
/// digits with an optional fraction and exponent, or `nan`, `inf`, `infinity` in
/// any case) that starts `s`, if one does.
pub uninterp spec fn float_token_len(s: Seq<u8>) -> Option<nat>;

/// Relies on `nom::number::complete::recognize_float_or_exceptions`, the
/// recognizer that nom's `float` parses with: it returns the non-empty prefix of
/// `input[pos..]` that forms a number, or an error when none does.
#[verifier::external_body]
fn float_token_at(input: &[u8], pos: usize) -> (r: Option<usize>)
    requires
        pos <= input@.len(),
    ensures
        match r {
            None => float_token_len(input@.subrange(pos as int, input@.len() as int)) is None,
            Some(n) => float_token_len(input@.subrange(pos as int, input@.len() as int)) == Some(
                n as nat,
            ) && 0 < n && pos + n <= input@.len(),
        },
{
    match nom::number::complete::recognize_float_or_exceptions::<&[u8], nom::error::Error<&[u8]>>(
        &input[pos..],
    ) {
        Ok((_, token)) => Some(token.len()),
        Err(_) => None,
    }
}

/// Space, tab, line feed or carriage return.
pub open spec fn is_ws(b: u8) -> bool {
    b == 0x20 || b == 0x09 || b == 0x0A || b == 0x0D
}

/// The first position at or after `i` that holds no whitespace.
pub open spec fn ws_end(s: Seq<u8>, i: int) -> int
    decreases s.len() - i,
{
    if 0 <= i < s.len() && is_ws(s[i]) {
        ws_end(s, i + 1)
    } else {
        i
    }
}

/// `s[i]` exists and is `b`.
pub open spec fn byte_at(s: Seq<u8>, i: int, b: u8) -> bool {
    0 <= i < s.len() && s[i] == b
}

/// The end of the number that starts at `i`, if one does.
pub open spec fn number_end(s: Seq<u8>, i: int) -> Option<int> {
    match float_token_len(s.subrange(i, s.len() as int)) {
        Some(n) => if i + n <= s.len() {
            Some(i + n)
        } else {
            None
        },
        None => None,
    }
}

/// The bytes `start..end` of a text.
#[derive(PartialEq, Eq, Structural, Clone, Copy, Debug)]
pub struct Span {
    pub start: usize,
    pub end: usize,
}

/// Where the numbers of one command stand.
#[derive(PartialEq, Eq, Structural, Clone, Copy, Debug)]
pub struct CommandSpans {
    pub displacement: Span,
    pub vel_max: Span,
    /// Absent when the command gives two numbers only.
    pub vel_end: Option<Span>,
}

/// The command that starts at `i` (leading whitespace allowed), with the position
/// after it and its trailing whitespace. Between the second and third number the
/// comma is optional, and so is the third number.
pub open spec fn command_at(s: Seq<u8>, i: int) -> Option<(CommandSpans, int)> {
    let a = ws_end(s, i);
    if !byte_at(s, a, 0x28) {
        None
    } else {
        let b = ws_end(s, a + 1);
        match number_end(s, b) {
            None => None,
            Some(e1) => {
                let c = ws_end(s, e1);
                if !byte_at(s, c, 0x2C) {
                    None
                } else {
                    let d = ws_end(s, c + 1);
                    match number_end(s, d) {
                        None => None,
                        Some(e2) => {
                            let f = ws_end(s, e2);
                            let g = if byte_at(s, f, 0x2C) {
                                f + 1
                            } else {
                                f
                            };
                            let h = ws_end(s, g);
                            let third = match number_end(s, h) {
                                Some(e3) => Some(Span { start: h as usize, end: e3 as usize }),
                                None => None,
                            };
                            let after = match number_end(s, h) {
                                Some(e3) => e3,
                                None => h,
                            };
                            let k = ws_end(s, after);
                            if !byte_at(s, k, 0x29) {
                                None
                            } else {
                                Some(
                                    (
                                        CommandSpans {
                                            displacement: Span {
                                                start: b as usize,
                                                end: e1 as usize,
                                            },
                                            vel_max: Span { start: d as usize, end: e2 as usize },
                                            vel_end: third,
                                        },
                                        ws_end(s, k + 1),
                                    ),
                                )
                            }
                        },
                    }
                }
            },
        }
    }
}

/// The position after a `;` separator (with whitespace around it) at `i`.
pub open spec fn separator_end(s: Seq<u8>, i: int) -> Option<int> {
    let a = ws_end(s, i);
    if byte_at(s, a, 0x3B) {
        Some(ws_end(s, a + 1))
    } else {
        None
    }
}

/// The commands that follow position `p`, each after a separator, as far as they
/// go, and the position where they end.
pub open spec fn more_commands(s: Seq<u8>, p: int) -> (Seq<CommandSpans>, int)
    decreases s.len() - p,
{
    if 0 <= p <= s.len() {
        match separator_end(s, p) {
            Some(q) => match command_at(s, q) {
                Some((c, next_end)) => if p < next_end <= s.len() {
                    let (rest, e) = more_commands(s, next_end);
                    (seq![c] + rest, e)
                } else {
                    (Seq::empty(), p)
                },
                None => (Seq::empty(), p),
            },
            None => (Seq::empty(), p),
        }
    } else {
        (Seq::empty(), p)
    }
}

/// The commands of the text `s`, when the whole text is a list of commands.
pub open spec fn parse_spec(s: Seq<u8>) -> Option<Seq<CommandSpans>> {
    let (list, p) = match command_at(s, 0) {
        None => (Seq::<CommandSpans>::empty(), 0),
        Some((c, first_end)) => {
            let (rest, e) = more_commands(s, first_end);
            (seq![c] + rest, e)
        },
    };
    let end = match separator_end(s, p) {
        Some(q) => q,
        None => p,
    };
    if end == s.len() {
        Some(list)
    } else {
        None
    }
}

fn skip_whitespace(input: &[u8], i: usize) -> (r: usize)
    requires
        i <= input@.len(),
    ensures
        r == ws_end(input@, i as int),
        i <= r <= input@.len(),
{
    let mut j = i;
    while j < input.len() && (input[j] == 0x20 || input[j] == 0x09 || input[j] == 0x0A || input[j]
        == 0x0D)
        invariant
            i <= j <= input@.len(),
            ws_end(input@, i as int) == ws_end(input@, j as int),
        decreases input@.len() - j,
    {
        j = j + 1;
    }
    j
}

fn number_end_at(input: &[u8], pos: usize) -> (r: Option<usize>)
    requires
        pos <= input@.len(),
    ensures
        match number_end(input@, pos as int) {
            Some(e) => r == Some(e as usize) && pos < e <= input@.len(),
            None => r is None,
        },
{
    let len = input.len();
    match float_token_at(input, pos) {
        Some(n) => {
            assert(pos + n <= len);
            Some(pos + n)
        },
        None => None,
    }
}

/// The command that starts at `pos`, as `command_at` describes, with the position
/// where it ends.
pub fn parse_command_at(input: &[u8], pos: usize) -> (r: Option<(CommandSpans, usize)>)
    requires
        pos <= input@.len(),
    ensures
        match command_at(input@, pos as int) {
            Some((c, e)) => r == Some((c, e as usize)) && pos < e <= input@.len(),
            None => r is None,
        },
{
    let a = skip_whitespace(input, pos);
    if a >= input.len() || input[a] != 0x28 {
        return None;
    }
    let b = skip_whitespace(input, a + 1);
    let e1 = match number_end_at(input, b) {
        Some(e) => e,
        None => return None,
    };
    let c = skip_whitespace(input, e1);
    if c >= input.len() || input[c] != 0x2C {
        return None;
    }
    let d = skip_whitespace(input, c + 1);
    let e2 = match number_end_at(input, d) {
        Some(e) => e,
        None => return None,
    };
    let f = skip_whitespace(input, e2);
    let g = if f < input.len() && input[f] == 0x2C {
        f + 1
    } else {
        f
    };
    let h = skip_whitespace(input, g);
    let third = number_end_at(input, h);
    let (vel_end, after) = match third {
        Some(e3) => (Some(Span { start: h, end: e3 }), e3),
        None => (None, h),
    };
    let k = skip_whitespace(input, after);
    if k >= input.len() || input[k] != 0x29 {
        return None;
    }
    let end = skip_whitespace(input, k + 1);
    Some(
        (
            CommandSpans {
                displacement: Span { start: b, end: e1 },
                vel_max: Span { start: d, end: e2 },
                vel_end,
            },
            end,
        ),
    )
}

fn separator_end_at(input: &[u8], pos: usize) -> (r: Option<usize>)
    requires
        pos <= input@.len(),
    ensures
        match separator_end(input@, pos as int) {
            Some(e) => r == Some(e as usize) && pos < e <= input@.len(),
            None => r is None,
        },
{
    let a = skip_whitespace(input, pos);
    if a < input.len() && input[a] == 0x3B {
        Some(skip_whitespace(input, a + 1))
    } else {
        None
    }
}

/// The commands of `input` when the whole text is a list of commands (an empty
/// text is an empty list), and `None` otherwise.
pub fn parse_position_commands(input: &[u8]) -> (r: Option<Vec<CommandSpans>>)
    ensures
        match r {
            Some(v) => parse_spec(input@) == Some(v@),
            None => parse_spec(input@) is None,
        },
{
    let len = input.len();
    let mut out: Vec<CommandSpans> = Vec::new();
    let mut p: usize = 0;
    match parse_command_at(input, 0) {
        None => {},
        Some((c, first_end)) => {
            out.push(c);
            p = first_end;
            let ghost full = more_commands(input@, first_end as int);
            proof {
                assert(out@ + full.0 =~= seq![c] + full.0);
            }
            loop
                invariant
                    p <= input@.len(),
                    input@.len() == len,
                    (out@ + more_commands(input@, p as int).0, more_commands(
                        input@,
                        p as int,
                    ).1) == (seq![c] + full.0, full.1),
                ensures
                    p <= input@.len(),
                    (out@, p as int) == (seq![c] + full.0, full.1),
                decreases input@.len() - p,
            {
                let q = match separator_end_at(input, p) {
                    Some(q) => q,
                    None => {
                        proof {
                            assert(more_commands(input@, p as int) == (
                                Seq::<CommandSpans>::empty(),
                                p as int,
                            ));
                            assert(out@ + Seq::<CommandSpans>::empty() =~= out@);
                        }
                        break ;
                    },
                };
                let (c2, next_end) = match parse_command_at(input, q) {
                    Some(x) => x,
                    None => {
                        proof {
                            assert(more_commands(input@, p as int) == (
                                Seq::<CommandSpans>::empty(),
                                p as int,
                            ));
                            assert(out@ + Seq::<CommandSpans>::empty() =~= out@);
                        }
                        break ;
                    },
                };
                proof {
                    let m = more_commands(input@, next_end as int);
                    assert(more_commands(input@, p as int) == (seq![c2] + m.0, m.1));
                    assert(out@ + (seq![c2] + m.0) =~= out@.push(c2) + m.0);
                }
                out.push(c2);
                p = next_end;
            }
        },
    }
    let end = match separator_end_at(input, p) {
        Some(q) => q,
        None => p,
    };
    if end == len {
        Some(out)
    } else {
        None
    }
}

} // verus!
