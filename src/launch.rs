//! The launch command line kept by the service-control manager.
//!
//! The registration stores one command line: the executable path, the service
//! sentinel and the home directory, each argument quoted when it holds a blank.
//! Reconfiguration reads that line back, splits it on the sentinel, trims both
//! halves and strips their quotes.

use vstd::prelude::*;

verus! {

/// Name under which the service is registered.
pub const SERVICE_NAME: &'static str = "switch-service-v1";

/// Display name of the registration.
pub const SERVICE_DISPLAY_NAME: &'static str = "switch service v1";

/// Description attached to the registration.
pub const SERVICE_DESCRIPTION: &'static str = "A VPN";

/// File name of the executable copied into the install directory.
pub const SERVICE_EXECUTABLE: &'static str = "switch-service-v1.exe";

/// Companion driver file that must sit in the working directory at install time.
pub const COMPANION_ARTIFACT: &'static str = "wintun.dll";

/// The sentinel argument that marks a process started by the service manager.
pub const SERVICE_FLAG: &'static str = "start_switch_service_v1_";

/// The characters of the sentinel argument.
pub open spec fn flag() -> Seq<char> {
    seq!['s', 't', 'a', 'r', 't', '_', 's', 'w', 'i', 't', 'c', 'h', '_', 's', 'e', 'r', 'v', 'i', 'c', 'e', '_', 'v', '1', '_']
}

/// The sentinel argument as characters.
pub fn service_flag() -> (r: Vec<char>)
    ensures
        r@ == flag(),
{
    vec!['s', 't', 'a', 'r', 't', '_', 's', 'w', 'i', 't', 'c', 'h', '_', 's', 'e', 'r', 'v', 'i', 'c', 'e', '_', 'v', '1', '_']
}

/// White space as `char::is_whitespace` knows it (Unicode `White_Space`).
pub open spec fn is_space(c: char) -> bool {
    ('\u{9}' <= c && c <= '\u{d}') || c == ' ' || c == '\u{85}' || c == '\u{a0}' || c == '\u{1680}'
        || ('\u{2000}' <= c && c <= '\u{200a}') || c == '\u{2028}' || c == '\u{2029}'
        || c == '\u{202f}' || c == '\u{205f}' || c == '\u{3000}'
}

/// A character that forces an argument into quotes.
pub open spec fn is_blank(c: char) -> bool {
    c == ' ' || c == '\t' || c == '\n' || c == '\u{b}'
}

/// An argument is quoted when it is empty or holds a blank.
pub open spec fn needs_quotes(s: Seq<char>) -> bool {
    s.len() == 0 || exists|i: int| 0 <= i < s.len() && is_blank(#[trigger] s[i])
}

/// One argument as it stands in the command line.
pub open spec fn quoted(s: Seq<char>) -> Seq<char> {
    if needs_quotes(s) {
        seq!['"'] + s + seq!['"']
    } else {
        s
    }
}

/// The stored command line for an executable path and a home directory.
pub open spec fn command_line(exe: Seq<char>, home: Seq<char>) -> Seq<char> {
    quoted(exe) + seq![' '] + flag() + seq![' '] + quoted(home)
}

/// `p` occurs in `s` at index `i`.
pub open spec fn occurs_at(s: Seq<char>, p: Seq<char>, i: int) -> bool {
    0 <= i && i + p.len() <= s.len() && s.subrange(i, i + p.len()) == p
}

/// `i` is the first index at which `p` occurs in `s`.
pub open spec fn first_at(s: Seq<char>, p: Seq<char>, i: int) -> bool {
    occurs_at(s, p, i) && forall|j: int| 0 <= j < i ==> !occurs_at(s, p, j)
}

/// `s` without its leading white space.
pub open spec fn trim_start(s: Seq<char>) -> Seq<char>
    decreases s.len(),
{
    if s.len() > 0 && is_space(s[0]) {
        trim_start(s.drop_first())
    } else {
        s
    }
}

/// `s` without its trailing white space.
pub open spec fn trim_end(s: Seq<char>) -> Seq<char>
    decreases s.len(),
{
    if s.len() > 0 && is_space(s.last()) {
        trim_end(s.drop_last())
    } else {
        s
    }
}

/// `s` without white space at either end.
pub open spec fn trim(s: Seq<char>) -> Seq<char> {
    trim_end(trim_start(s))
}

/// `s` without one pair of enclosing double quotes, if it has them.
pub open spec fn unquote(s: Seq<char>) -> Seq<char> {
    if s.len() >= 2 && s[0] == '"' && s.last() == '"' {
        s.subrange(1, s.len() - 1)
    } else {
        s
    }
}

/// The executable path and home directory read back from a stored command line:
/// `None` when the sentinel does not occur in it.
pub open spec fn decoded(line: Seq<char>) -> Option<(Seq<char>, Seq<char>)> {
    if exists|i: int| first_at(line, flag(), i) {
        let i = choose|i: int| first_at(line, flag(), i);
        Some((
            unquote(trim(line.subrange(0, i))),
            unquote(trim(line.subrange(i + flag().len(), line.len() as int))),
        ))
    } else {
        None
    }
}

/// Whether `c` is white space.
pub fn char_is_space(c: char) -> (r: bool)
    ensures
        r == is_space(c),
{
    ('\u{9}' <= c && c <= '\u{d}') || c == ' ' || c == '\u{85}' || c == '\u{a0}' || c == '\u{1680}'
        || ('\u{2000}' <= c && c <= '\u{200a}') || c == '\u{2028}' || c == '\u{2029}'
        || c == '\u{202f}' || c == '\u{205f}' || c == '\u{3000}'
}

/// Whether the argument `s` must be quoted in the command line.
pub fn argument_needs_quotes(s: &Vec<char>) -> (r: bool)
    ensures
        r == needs_quotes(s@),
{
    if s.len() == 0 {
        return true;
    }
    let mut i: usize = 0;
    while i < s.len()
        invariant
            i <= s.len(),
            forall|j: int| 0 <= j < i ==> !is_blank(#[trigger] s@[j]),
        decreases s.len() - i,
    {
        let c = s[i];
        if c == ' ' || c == '\t' || c == '\n' || c == '\u{b}' {
            return true;
        }
        i = i + 1;
    }
    false
}

/// Appends the characters of `s` to `out`.
fn push_all(out: &mut Vec<char>, s: &Vec<char>)
    ensures
        final(out)@ == old(out)@ + s@,
{
    let mut i: usize = 0;
    while i < s.len()
        invariant
            i <= s.len(),
            out@ == old(out)@ + s@.subrange(0, i as int),
        decreases s.len() - i,
    {
        out.push(s[i]);
        i = i + 1;
        assert(s@.subrange(0, i as int) =~= s@.subrange(0, i - 1) + seq![s@[i - 1]]);
    }
    assert(s@.subrange(0, s.len() as int) =~= s@);
}

/// Appends the argument `s` to `out`, quoted where it must be.
fn push_quoted(out: &mut Vec<char>, s: &Vec<char>)
    ensures
        final(out)@ == old(out)@ + quoted(s@),
{
    if argument_needs_quotes(s) {
        out.push('"');
        push_all(out, s);
        out.push('"');
        assert(out@ =~= old(out)@ + (seq!['"'] + s@ + seq!['"']));
    } else {
        push_all(out, s);
    }
}

/// The command line that the registration stores for an executable path and a
/// home directory.
pub fn encode_command_line(exe: &Vec<char>, home: &Vec<char>) -> (r: Vec<char>)
    ensures
        r@ == command_line(exe@, home@),
{
    let mut out: Vec<char> = Vec::new();
    push_quoted(&mut out, exe);
    out.push(' ');
    let f = service_flag();
    push_all(&mut out, &f);
    out.push(' ');
    push_quoted(&mut out, home);
    assert(out@ =~= command_line(exe@, home@));
    out
}

/// Whether `p` occurs in `s` at index `i`.
fn matches_at(s: &Vec<char>, p: &Vec<char>, i: usize) -> (r: bool)
    requires
        i + p.len() <= s.len(),
    ensures
        r == occurs_at(s@, p@, i as int),
{
    let mut k: usize = 0;
    while k < p.len()
        invariant
            k <= p.len(),
            i + p.len() <= s.len(),
            forall|j: int| 0 <= j < k ==> s@[i + j] == p@[j],
        decreases p.len() - k,
    {
        if s[i + k] != p[k] {
            assert(s@.subrange(i as int, i + p.len())[k as int] != p@[k as int]);
            return false;
        }
        k = k + 1;
    }
    assert(s@.subrange(i as int, i + p.len()) =~= p@);
    true
}

/// The first index at which `p` occurs in `s`, if any.
pub fn find_first(s: &Vec<char>, p: &Vec<char>) -> (r: Option<usize>)
    ensures
        match r {
            Some(i) => first_at(s@, p@, i as int),
            None => forall|i: int| !occurs_at(s@, p@, i),
        },
{
    if p.len() > s.len() {
        return None;
    }
    let last = s.len() - p.len();
    let mut i: usize = 0;
    while i < last
        invariant
            i <= last,
            last + p.len() == s.len(),
            forall|j: int| 0 <= j < i ==> !occurs_at(s@, p@, j),
        decreases last - i,
    {
        if matches_at(s, p, i) {
            return Some(i);
        }
        i = i + 1;
    }
    if matches_at(s, p, last) {
        Some(last)
    } else {
        assert forall|j: int| !occurs_at(s@, p@, j) by {
            if j > last {
                assert(!(j + p@.len() <= s@.len()));
            }
        }
        None
    }
}

/// The bounds of `s[lo..hi]` once white space is trimmed from both ends.
fn trimmed_bounds(s: &Vec<char>, lo: usize, hi: usize) -> (r: (usize, usize))
    requires
        lo <= hi <= s.len(),
    ensures
        lo <= r.0 <= r.1 <= hi,
        s@.subrange(r.0 as int, r.1 as int) == trim(s@.subrange(lo as int, hi as int)),
{
    let mut a: usize = lo;
    while a < hi && char_is_space(s[a])
        invariant
            lo <= a <= hi <= s.len(),
            trim_start(s@.subrange(lo as int, hi as int)) == trim_start(s@.subrange(a as int, hi as int)),
        decreases hi - a,
    {
        assert(s@.subrange(a as int, hi as int).drop_first() =~= s@.subrange(a + 1, hi as int));
        a = a + 1;
    }
    let mut b: usize = hi;
    while b > a && char_is_space(s[b - 1])
        invariant
            lo <= a <= b <= hi <= s.len(),
            trim_end(s@.subrange(a as int, hi as int)) == trim_end(s@.subrange(a as int, b as int)),
        decreases b - a,
    {
        assert(s@.subrange(a as int, b as int).drop_last() =~= s@.subrange(a as int, b - 1));
        b = b - 1;
    }
    (a, b)
}

/// A copy of `s[lo..hi]` without one pair of enclosing double quotes.
fn unquoted_copy(s: &Vec<char>, lo: usize, hi: usize) -> (r: Vec<char>)
    requires
        lo <= hi <= s.len(),
    ensures
        r@ == unquote(s@.subrange(lo as int, hi as int)),
{
    let (a, b) = if hi - lo >= 2 && s[lo] == '"' && s[hi - 1] == '"' {
        (lo + 1, hi - 1)
    } else {
        (lo, hi)
    };
    let mut out: Vec<char> = Vec::new();
    let mut i: usize = a;
    while i < b
        invariant
            a <= i <= b <= s.len(),
            out@ == s@.subrange(a as int, i as int),
        decreases b - i,
    {
        out.push(s[i]);
        i = i + 1;
        assert(s@.subrange(a as int, i as int) =~= s@.subrange(a as int, i - 1) + seq![s@[i - 1]]);
    }
    assert(out@ =~= unquote(s@.subrange(lo as int, hi as int)));
    out
}

/// Reads the executable path and the home directory back from a stored command
/// line: the line is split at the first sentinel, each half is trimmed and loses
/// its enclosing quotes. `None` when the sentinel is absent.
pub fn decode_command_line(line: &Vec<char>) -> (r: Option<(Vec<char>, Vec<char>)>)
    ensures
        match r {
            Some((exe, home)) => decoded(line@) == Some((exe@, home@)),
            None => decoded(line@) is None,
        },
{
    let f = service_flag();
    match find_first(line, &f) {
        None => {
            assert(!exists|i: int| first_at(line@, flag(), i));
            None
        },
        Some(i) => {
            proof {
                lemma_first_unique(line@, flag(), i as int);
            }
            assert(i + f.len() <= line.len());
            let rest: usize = i + f.len();
            let (a, b) = trimmed_bounds(line, 0, i);
            let exe = unquoted_copy(line, a, b);
            let (c, d) = trimmed_bounds(line, rest, line.len());
            let home = unquoted_copy(line, c, d);
            Some((exe, home))
        },
    }
}

/// The first occurrence is unique, so `choose` picks it.
pub proof fn lemma_first_unique(s: Seq<char>, p: Seq<char>, i: int)
    requires
        first_at(s, p, i),
    ensures
        (choose|j: int| first_at(s, p, j)) == i,
{
    let j = choose|j: int| first_at(s, p, j);
    assert(first_at(s, p, j));
    if j < i {
        assert(!occurs_at(s, p, j));
    } else if i < j {
        assert(!occurs_at(s, p, i));
    }
}

/// A path that survives the stored command line unchanged: not empty, no double
/// quote in it, no white space at either end, and no sentinel inside.
pub open spec fn storable_path(s: Seq<char>) -> bool {
    &&& s.len() > 0
    &&& forall|i: int| 0 <= i < s.len() ==> #[trigger] s[i] != '"'
    &&& !is_space(s[0])
    &&& !is_space(s.last())
    &&& forall|j: int| !occurs_at(s, flag(), j)
}

proof fn lemma_flag_chars()
    ensures
        flag().len() == 24,
        forall|k: int| 0 <= k < 24 ==> #[trigger] flag()[k] != ' ' && flag()[k] != '"',
        flag()[0] == 's',
        flag()[23] == '_',
{
    assert forall|k: int| 0 <= k < 24 implies #[trigger] flag()[k] != ' ' && flag()[k] != '"' by {
        assert(0 <= k < 24);
    }
}

proof fn lemma_quoted(s: Seq<char>)
    requires
        storable_path(s),
    ensures
        quoted(s).len() > 0,
        !is_space(quoted(s)[0]),
        !is_space(quoted(s).last()),
        unquote(quoted(s)) == s,
        forall|j: int| #![trigger occurs_at(quoted(s), flag(), j)]
            j + flag().len() <= quoted(s).len() ==> !occurs_at(quoted(s), flag(), j),
{
    lemma_flag_chars();
    let q = quoted(s);
    if needs_quotes(s) {
        assert(q.subrange(1, q.len() - 1) =~= s);
        assert forall|j: int| #![trigger occurs_at(q, flag(), j)]
            j + flag().len() <= q.len() implies !occurs_at(q, flag(), j) by {
            if occurs_at(q, flag(), j) {
                if j == 0 {
                    assert(q.subrange(j, j + 24)[0] == flag()[0]);
                } else if j + 24 == q.len() {
                    assert(q.subrange(j, j + 24)[23] == flag()[23]);
                } else {
                    assert(s.subrange(j - 1, j - 1 + 24) =~= q.subrange(j, j + 24));
                    assert(occurs_at(s, flag(), j - 1));
                }
            }
        }
    } else {
        assert(s[0] != '"');
    }
}

proof fn lemma_trim_kept(q: Seq<char>)
    requires
        q.len() > 0,
        !is_space(q[0]),
        !is_space(q.last()),
    ensures
        trim(q + seq![' ']) == q,
        trim(seq![' '] + q) == q,
{
    let a = q + seq![' '];
    assert(trim_start(a) == a);
    assert(a.drop_last() =~= q);
    assert(trim_end(q) == q);
    assert(trim_end(a) == trim_end(q));
    let b = seq![' '] + q;
    assert(b.drop_first() =~= q);
    assert(trim_start(q) == q);
    assert(trim_start(b) == q);
}

/// Encoding an executable path and a home directory into the stored command line
/// and decoding that line gives back the two paths exactly.
pub proof fn lemma_round_trip(exe: Seq<char>, home: Seq<char>)
    requires
        storable_path(exe),
        storable_path(home),
    ensures
        decoded(command_line(exe, home)) == Some((exe, home)),
{
    lemma_flag_chars();
    lemma_quoted(exe);
    lemma_quoted(home);
    let q = quoted(exe);
    let line = command_line(exe, home);
    let p: int = q.len() as int + 1;
    assert(line.subrange(p, p + 24) =~= flag());
    assert forall|j: int| 0 <= j < p implies !occurs_at(line, flag(), j) by {
        if occurs_at(line, flag(), j) {
            if j + 24 <= q.len() {
                assert(line.subrange(j, j + 24) =~= q.subrange(j, j + 24));
                assert(occurs_at(q, flag(), j));
            } else {
                assert(line[q.len() as int] == ' ');
                assert(line.subrange(j, j + 24)[q.len() - j] == flag()[q.len() - j]);
            }
        }
    }
    assert(first_at(line, flag(), p));
    lemma_first_unique(line, flag(), p);
    assert(line.subrange(0, p) =~= q + seq![' ']);
    assert(line.subrange(p + 24, line.len() as int) =~= seq![' '] + quoted(home));
    lemma_trim_kept(q);
    lemma_trim_kept(quoted(home));
}

/// How the process was started: by a user, or by the service manager with the
/// sentinel and the home directory as its arguments.
#[derive(Clone, Debug, PartialEq, Eq)]
pub enum RunMode {
    Foreground,
    ServiceHost { home: Vec<char> },
}

/// Whether `a` and `b` hold the same characters.
fn same_chars(a: &Vec<char>, b: &Vec<char>) -> (r: bool)
    ensures
        r == (a@ == b@),
{
    if a.len() != b.len() {
        return false;
    }
    let mut i: usize = 0;
    while i < a.len()
        invariant
            i <= a.len() == b.len(),
            forall|j: int| 0 <= j < i ==> a@[j] == b@[j],
        decreases a.len() - i,
    {
        if a[i] != b[i] {
            return false;
        }
        i = i + 1;
    }
    assert(a@ =~= b@);
    true
}

/// The run mode for the arguments that follow the program name: the service
/// host when they are exactly the sentinel and a home directory.
pub fn run_mode(args: &Vec<Vec<char>>) -> (r: RunMode)
    ensures
        match r {
            RunMode::ServiceHost { home } => args.len() == 2 && args@[0]@ == flag() && home@ == args@[1]@,
            RunMode::Foreground => !(args.len() == 2 && args@[0]@ == flag()),
        },
{
    let f = service_flag();
    if args.len() == 2 && same_chars(&args[0], &f) {
        let mut home: Vec<char> = Vec::new();
        push_all(&mut home, &args[1]);
        assert(home@ =~= args@[1]@);
        RunMode::ServiceHost { home }
    } else {
        RunMode::Foreground
    }
}

} // verus!
