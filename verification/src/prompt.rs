//! The prompt engine: capability checks, line acceptance, the choice loop's
//! decision step, and the fixed yes/no question. The shell performs the
//! actual writes and reads; every decision about what a read line means is
//! made here. Passwords are read here directly, through a non-echoing read
//! that requires a real terminal.

use vstd::prelude::*;
use vstd::string::StringSliceAdditionalSpecFns;

use crate::router::Ui;

verus! {

/// Why an interactive input request failed.
#[derive(Clone, Copy, Debug, PartialEq, Eq, Structural)]
pub enum PromptError {
    /// No terminal is attached and no interactive override is set.
    Unsupported,
    /// The input stream ended before a line terminator: the user cancelled.
    Cancelled,
    /// An ordinary I/O failure while reading.
    Io,
}

/// The capability test every interactive question makes first: without a
/// real terminal and without an interactive override, the request fails at
/// once as unsupported instead of hanging on input that cannot come.
pub fn prompt_supported(stdout_is_tty: bool, interactive_override: bool) -> (r: Result<
    (),
    PromptError,
>)
    ensures
        r is Ok <==> (stdout_is_tty || interactive_override),
        r is Err ==> r == Err::<(), PromptError>(PromptError::Unsupported),
{
    if stdout_is_tty || interactive_override {
        Ok(())
    } else {
        Err(PromptError::Unsupported)
    }
}

/// A byte-for-byte copy.
fn copy_bytes(v: &Vec<u8>) -> (r: Vec<u8>)
    ensures
        r@ == v@,
{
    let n = v.len();
    let mut r: Vec<u8> = Vec::new();
    let mut i: usize = 0;
    while i < n
        invariant
            n == v@.len(),
            0 <= i <= n,
            r@ == v@.subrange(0, i as int),
        decreases n - i,
    {
        r.push(v[i]);
        proof {
            assert(r@ =~= v@.subrange(0, i as int + 1));
        }
        i = i + 1;
    }
    proof {
        assert(r@ =~= v@);
    }
    r
}

/// What one raw read of a prompt line means: a line terminator is stripped;
/// an empty read with no terminator is a cancellation, distinct from a short
/// read that does end in a terminator.
pub fn accept_prompt_line(buf: &Vec<u8>) -> (r: Result<Vec<u8>, PromptError>)
    ensures
        buf@.len() == 0 ==> r == Err::<Vec<u8>, PromptError>(PromptError::Cancelled),
        buf@.len() > 0 && buf@.last() == 10 ==> (r matches Ok(line) && line@ == buf@.drop_last()),
        buf@.len() > 0 && buf@.last() != 10 ==> (r matches Ok(line) && line@ == buf@),
    {
    let n = buf.len();
    if n == 0 {
        return Err(PromptError::Cancelled);
    }
    let mut line = copy_bytes(buf);
    if line[n - 1] == 10 {
        line.truncate(n - 1);
        proof {
            assert(line@ =~= buf@.drop_last());
        }
    }
    Ok(line)
}

/// An ASCII whitespace byte: space, tab, line feed, vertical tab, form
/// feed or carriage return.
pub open spec fn is_ascii_space(b: u8) -> bool {
    b == 32 || b == 9 || b == 10 || b == 11 || b == 12 || b == 13
}

/// A two-byte encoding of a whitespace character: next line or no-break
/// space.
pub open spec fn is_wide_space2(a: u8, b: u8) -> bool {
    a == 0xc2 && (b == 0x85 || b == 0xa0)
}

/// A three-byte encoding of a whitespace character: ogham space mark, the
/// en-quad to hair-space range, line and paragraph separators, narrow
/// no-break space, medium mathematical space, or ideographic space.
pub open spec fn is_wide_space3(a: u8, b: u8, c: u8) -> bool {
    ||| (a == 0xe1 && b == 0x9a && c == 0x80)
    ||| (a == 0xe2 && b == 0x80 && (0x80 <= c <= 0x8a || c == 0xa8 || c == 0xa9 || c == 0xaf))
    ||| (a == 0xe2 && b == 0x81 && c == 0x9f)
    ||| (a == 0xe3 && b == 0x80 && c == 0x80)
}

/// How many leading bytes of `s` form one whitespace character; zero where
/// none does.
pub open spec fn space_prefix(s: Seq<u8>) -> int {
    if s.len() >= 3 && is_wide_space3(s[0], s[1], s[2]) {
        3
    } else if s.len() >= 2 && is_wide_space2(s[0], s[1]) {
        2
    } else if s.len() >= 1 && is_ascii_space(s[0]) {
        1
    } else {
        0
    }
}

/// How many trailing bytes of `s` form one whitespace character; zero where
/// none does.
pub open spec fn space_suffix(s: Seq<u8>) -> int {
    if s.len() >= 3 && is_wide_space3(s[s.len() - 3], s[s.len() - 2], s[s.len() - 1]) {
        3
    } else if s.len() >= 2 && is_wide_space2(s[s.len() - 2], s[s.len() - 1]) {
        2
    } else if s.len() >= 1 && is_ascii_space(s[s.len() - 1]) {
        1
    } else {
        0
    }
}

/// The sequence with its leading whitespace characters removed.
pub open spec fn trim_front(s: Seq<u8>) -> Seq<u8>
    decreases s.len(),
{
    if space_prefix(s) > 0 {
        trim_front(s.skip(space_prefix(s)))
    } else {
        s
    }
}

/// The sequence with its trailing whitespace characters removed.
pub open spec fn trim_back(s: Seq<u8>) -> Seq<u8>
    decreases s.len(),
{
    if space_suffix(s) > 0 {
        trim_back(s.take(s.len() - space_suffix(s)))
    } else {
        s
    }
}

/// The sequence with whitespace removed at both ends.
pub open spec fn spec_trimmed(s: Seq<u8>) -> Seq<u8> {
    trim_back(trim_front(s))
}

/// How many bytes at `line[at..]` form one whitespace character.
fn space_width_at(line: &Vec<u8>, at: usize) -> (r: usize)
    requires
        at < line@.len(),
    ensures
        r == space_prefix(line@.skip(at as int)),
        r <= line@.len() - at,
{
    let n = line.len();
    proof {
        assert(line@.skip(at as int).len() == n - at);
        assert forall|j: int| 0 <= j < n - at implies line@.skip(at as int)[j] == line@[at
            + j] by {}
    }
    if n - at >= 3 {
        let (a, b, c) = (line[at], line[at + 1], line[at + 2]);
        if (a == 0xe1 && b == 0x9a && c == 0x80) || (a == 0xe2 && b == 0x80 && ((0x80 <= c && c
            <= 0x8a) || c == 0xa8 || c == 0xa9 || c == 0xaf)) || (a == 0xe2 && b == 0x81 && c
            == 0x9f) || (a == 0xe3 && b == 0x80 && c == 0x80) {
            return 3;
        }
    }
    if n - at >= 2 {
        let (a, b) = (line[at], line[at + 1]);
        if a == 0xc2 && (b == 0x85 || b == 0xa0) {
            return 2;
        }
    }
    let a = line[at];
    if a == 32 || a == 9 || (10 <= a && a <= 13) {
        1
    } else {
        0
    }
}

/// How many bytes at the end of `line[start..end]` form one whitespace
/// character.
fn space_width_before(line: &Vec<u8>, start: usize, end: usize) -> (r: usize)
    requires
        0 <= start < end <= line@.len(),
    ensures
        r == space_suffix(line@.subrange(start as int, end as int)),
        r <= end - start,
{
    proof {
        let seg = line@.subrange(start as int, end as int);
        assert(seg.len() == end - start);
        assert forall|j: int| 0 <= j < end - start implies seg[j] == line@[start + j] by {}
    }
    if end - start >= 3 {
        let (a, b, c) = (line[end - 3], line[end - 2], line[end - 1]);
        if (a == 0xe1 && b == 0x9a && c == 0x80) || (a == 0xe2 && b == 0x80 && ((0x80 <= c && c
            <= 0x8a) || c == 0xa8 || c == 0xa9 || c == 0xaf)) || (a == 0xe2 && b == 0x81 && c
            == 0x9f) || (a == 0xe3 && b == 0x80 && c == 0x80) {
            return 3;
        }
    }
    if end - start >= 2 {
        let (a, b) = (line[end - 2], line[end - 1]);
        if a == 0xc2 && (b == 0x85 || b == 0xa0) {
            return 2;
        }
    }
    let a = line[end - 1];
    if a == 32 || a == 9 || (10 <= a && a <= 13) {
        1
    } else {
        0
    }
}

/// Removes whitespace at both ends of a line, as a prompt answer is cleaned
/// before it is interpreted; every whitespace character, encoded in one to
/// three bytes, is stripped.
pub fn trimmed(line: &Vec<u8>) -> (r: Vec<u8>)
    ensures
        r@ == spec_trimmed(line@),
{
    let n = line.len();
    let mut start: usize = 0;
    proof {
        assert(line@.skip(0) =~= line@);
    }
    loop
        invariant
            n == line@.len(),
            0 <= start <= n,
            trim_front(line@) == trim_front(line@.skip(start as int)),
        ensures
            0 <= start <= n,
            trim_front(line@) == trim_front(line@.skip(start as int)),
            space_prefix(line@.skip(start as int)) == 0,
        decreases n - start,
    {
        if start >= n {
            proof {
                assert(line@.skip(start as int).len() == 0);
            }
            break;
        }
        let w = space_width_at(line, start);
        if w == 0 {
            break;
        }
        proof {
            let seg = line@.skip(start as int);
            assert(trim_front(seg) == trim_front(seg.skip(w as int)));
            assert(seg.skip(w as int) =~= line@.skip(start as int + w as int));
        }
        start = start + w;
    }
    proof {
        assert(space_prefix(line@.skip(start as int)) == 0);
        assert(trim_front(line@) == line@.skip(start as int));
    }
    let mut end: usize = n;
    proof {
        assert(line@.subrange(start as int, n as int) =~= line@.skip(start as int));
    }
    loop
        invariant
            n == line@.len(),
            0 <= start <= end <= n,
            trim_front(line@) == line@.skip(start as int),
            trim_back(line@.skip(start as int)) == trim_back(
                line@.subrange(start as int, end as int),
            ),
        ensures
            0 <= start <= end <= n,
            trim_back(line@.skip(start as int)) == trim_back(
                line@.subrange(start as int, end as int),
            ),
            space_suffix(line@.subrange(start as int, end as int)) == 0,
        decreases end,
    {
        if end <= start {
            proof {
                assert(line@.subrange(start as int, end as int).len() == 0);
            }
            break;
        }
        let w = space_width_before(line, start, end);
        if w == 0 {
            break;
        }
        proof {
            let seg = line@.subrange(start as int, end as int);
            assert(trim_back(seg) == trim_back(seg.take(seg.len() - w as int)));
            assert(seg.take(seg.len() - w as int) =~= line@.subrange(
                start as int,
                end as int - w as int,
            ));
        }
        end = end - w;
    }
    proof {
        assert(space_suffix(line@.subrange(start as int, end as int)) == 0);
        assert(spec_trimmed(line@) == line@.subrange(start as int, end as int));
    }
    let mut r: Vec<u8> = Vec::new();
    let mut i: usize = start;
    while i < end
        invariant
            n == line@.len(),
            0 <= start <= i <= end <= n,
            r@ == line@.subrange(start as int, i as int),
        decreases end - i,
    {
        r.push(line[i]);
        proof {
            assert(r@ =~= line@.subrange(start as int, i as int + 1));
        }
        i = i + 1;
    }
    proof {
        assert(r@ =~= line@.subrange(start as int, end as int));
    }
    r
}

/// The auto-answer a choice prompt gives before any input is read: with no
/// interactive capability and a provided default, the default is returned at
/// once, without reading input.
pub fn prompt_choice_begin(can_prompt: bool, default: &Option<Vec<u8>>) -> (r: Option<Vec<u8>>)
    ensures
        !can_prompt && default is Some ==> (r matches Some(v) && v@ == default->0@),
        can_prompt || default is None ==> r is None,
{
    if !can_prompt {
        match default {
            Some(d) => Some(copy_bytes(d)),
            None => None,
        }
    } else {
        None
    }
}

/// What one read answer means for a choice prompt: the trimmed answer is
/// taken when it exactly matches an allowed choice; an empty answer takes
/// the default where one exists; anything else asks the caller to warn of an
/// unrecognized response and repeat.
pub fn prompt_choice_step(
    line: &Vec<u8>,
    choices: &Vec<Vec<u8>>,
    default: &Option<Vec<u8>>,
) -> (r: Option<Vec<u8>>)
    ensures
        ({
            let t = spec_trimmed(line@);
            if t.len() == 0 && default is Some {
                r matches Some(v) && v@ == default->0@
            } else if exists|i: int| 0 <= i < choices@.len() && (#[trigger] choices@[i])@ == t {
                r matches Some(v) && v@ == t
            } else {
                r is None
            }
        }),
{
    let t = trimmed(line);
    if t.len() == 0 {
        match default {
            Some(d) => {
                return Some(copy_bytes(d));
            },
            None => {},
        }
    }
    let n = choices.len();
    let mut i: usize = 0;
    while i < n
        invariant
            n == choices@.len(),
            0 <= i <= n,
            t@ == spec_trimmed(line@),
            !(t@.len() == 0 && default is Some),
            forall|j: int| 0 <= j < i ==> (#[trigger] choices@[j])@ != t@,
        decreases n - i,
    {
        if &choices[i] == &t {
            proof {
                assert(choices@[i as int]@ =~= t@);
            }
            return Some(t);
        }
        proof {
            if choices@[i as int]@ == t@ {
                assert(choices@[i as int]@.len() == t@.len());
                assert(false);
            }
        }
        i = i + 1;
    }
    None
}

/// The rendered hint suffix of a yes/no question: capitalized on the side
/// the default favors.
pub fn yes_no_hint(default: &Option<bool>) -> (r: &'static str)
    ensures
        *default == Some(true) ==> r@ == "(Yn)"@,
        *default == Some(false) ==> r@ == "(yN)"@,
        *default is None ==> r@ == "(yn)"@,
{
    match default {
        Some(true) => "(Yn)",
        Some(false) => "(yN)",
        None => "(yn)",
    }
}

/// The default answer of a yes/no question, as the choice it stands for.
pub fn yes_no_default_choice(default: &Option<bool>) -> (r: Option<Vec<u8>>)
    ensures
        *default == Some(true) ==> (r matches Some(v) && v@ == seq![89u8]),
        *default == Some(false) ==> (r matches Some(v) && v@ == seq![78u8]),
        *default is None ==> r is None,
{
    match default {
        Some(true) => {
            let mut v: Vec<u8> = Vec::new();
            v.push(89);
            proof {
                assert(v@ =~= seq![89u8]);
            }
            Some(v)
        },
        Some(false) => {
            let mut v: Vec<u8> = Vec::new();
            v.push(78);
            proof {
                assert(v@ =~= seq![78u8]);
            }
            Some(v)
        },
        None => None,
    }
}

/// The answers a yes/no question accepts, in each accepted spelling.
pub open spec fn yes_no_choice_list() -> Seq<Seq<u8>> {
    seq![
        seq![121u8],
        seq![110u8],
        seq![121u8, 101u8, 115u8],
        seq![110u8, 111u8],
        seq![89u8, 101u8, 115u8],
        seq![78u8, 111u8],
        seq![89u8, 69u8, 83u8],
        seq![78u8, 79u8],
    ]
}

/// The fixed choice set of a yes/no question: `y`, `n`, `yes`, `no`, `Yes`,
/// `No`, `YES`, `NO`.
pub fn yes_no_choices() -> (r: Vec<Vec<u8>>)
    ensures
        r@.len() == yes_no_choice_list().len(),
        forall|i: int| 0 <= i < r@.len() ==> (#[trigger] r@[i])@ == yes_no_choice_list()[i],
{
    let mut r: Vec<Vec<u8>> = Vec::new();
    let mut v: Vec<u8> = Vec::new();
    v.push(121);
    r.push(v);
    let mut v: Vec<u8> = Vec::new();
    v.push(110);
    r.push(v);
    let mut v: Vec<u8> = Vec::new();
    v.push(121);
    v.push(101);
    v.push(115);
    r.push(v);
    let mut v: Vec<u8> = Vec::new();
    v.push(110);
    v.push(111);
    r.push(v);
    let mut v: Vec<u8> = Vec::new();
    v.push(89);
    v.push(101);
    v.push(115);
    r.push(v);
    let mut v: Vec<u8> = Vec::new();
    v.push(78);
    v.push(111);
    r.push(v);
    let mut v: Vec<u8> = Vec::new();
    v.push(89);
    v.push(69);
    v.push(83);
    r.push(v);
    let mut v: Vec<u8> = Vec::new();
    v.push(78);
    v.push(79);
    r.push(v);
    proof {
        assert forall|i: int| 0 <= i < r@.len() implies (#[trigger] r@[i])@
            == yes_no_choice_list()[i] by {
            assert(r@[i]@ =~= yes_no_choice_list()[i]);
        }
    }
    r
}

/// What an accepted yes/no answer means: true exactly when it starts with
/// `y` or `Y`.
pub fn yes_no_value(choice: &Vec<u8>) -> (r: bool)
    ensures
        r == (choice@.len() > 0 && (choice@[0] == 121 || choice@[0] == 89)),
{
    choice.len() > 0 && (choice[0] == 121 || choice[0] == 89)
}

/// The rendered prompt line: the prompt text followed by a colon and a
/// space, as every interactive question is shown.
pub fn rendered_prompt(text: &str) -> (r: Vec<u8>)
    ensures
        r@ == text.spec_bytes() + seq![58u8, 32u8],
{
    let bs = text.as_bytes();
    let n = bs.len();
    let mut r: Vec<u8> = Vec::new();
    let mut i: usize = 0;
    while i < n
        invariant
            n == bs@.len(),
            bs@ == text.spec_bytes(),
            0 <= i <= n,
            r@ == bs@.subrange(0, i as int),
        decreases n - i,
    {
        r.push(bs[i]);
        proof {
            assert(r@ =~= bs@.subrange(0, i as int + 1));
        }
        i = i + 1;
    }
    r.push(58);
    r.push(32);
    proof {
        assert(r@ =~= text.spec_bytes() + seq![58u8, 32u8]);
    }
    r
}

/// Relies on rpassword::prompt_password: shows the rendered prompt on the
/// terminal and reads a line from it with echoing disabled. Its source
/// returns the read line or an ordinary I/O error; the body maps every
/// failure to the I/O kind and converts the rendered bytes for display.
#[verifier::external_body]
fn read_password(rendered: &Vec<u8>) -> (r: Result<String, PromptError>)
    ensures
        r matches Err(e) ==> e == PromptError::Io,
{
    rpassword::prompt_password(String::from_utf8_lossy(rendered).into_owned())
        .map_err(|_| PromptError::Io)
}

impl Ui {
    /// Whether prompting is possible at all: a real terminal on the
    /// out-stream, or an explicit interactive-override signal from the
    /// environment.
    pub fn can_prompt(stdout_is_tty: bool, interactive_override: bool) -> (r: bool)
        ensures
            r == (stdout_is_tty || interactive_override),
    {
        stdout_is_tty || interactive_override
    }

    /// Prompts for a password. A real terminal is required — no environment
    /// override is accepted, since a password must never be auto-answered or
    /// echoed — and the read itself never echoes. The unsupported error
    /// comes exactly when no terminal is attached; any other failure is an
    /// ordinary I/O error from the read.
    pub fn prompt_password(&self, prompt: &str, stdout_is_tty: bool) -> (r: Result<
        String,
        PromptError,
    >)
        ensures
            r == Err::<String, PromptError>(PromptError::Unsupported) <==> !stdout_is_tty,
            r matches Err(e) ==> e == PromptError::Unsupported || e == PromptError::Io,
    {
        if !stdout_is_tty {
            return Err(PromptError::Unsupported);
        }
        let rendered = rendered_prompt(prompt);
        read_password(&rendered)
    }
}

} // verus!
