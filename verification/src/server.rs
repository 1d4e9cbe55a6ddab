//! REST-server helpers around the daemon core: the process-wide state
//! (cached PID, start time, shutdown and reload flags), control-socket
//! paths, PID-file text, and URI path normalization.

use vstd::prelude::*;
use vstd::string::StringExecFns;
use vstd::string::StrSliceExecFns;

use crate::decimal::{i32_text_value, i32_to_decimal, int_digits, parse_i32_text, valid_i32_text};
use crate::error::DaemonError;

verus! {

/// The error raised when work is attempted after a shutdown request.
#[derive(Clone, Copy, Debug)]
pub struct ShutdownError;

impl ShutdownError {
    /// The message of the error.
    pub fn message(&self) -> (r: &'static str)
        ensures
            r@ == "Server shutdown requested - aborting task"@,
    {
        "Server shutdown requested - aborting task"
    }
}

/// Process-lifetime state: the PID and start time cached at daemon start
/// (invalid after a fork), and the termination flags. The flags move at
/// most from unset to set and are never cleared.
pub struct ServerState {
    pub pid: i32,
    pub pstart: u64,
    pub shutdown_flag: bool,
    pub reload_flag: bool,
}

impl ServerState {
    /// State at daemon start: the flags are unset.
    pub fn new(pid: i32, pstart: u64) -> (r: ServerState)
        ensures
            r.pid == pid,
            r.pstart == pstart,
            !r.shutdown_flag,
            !r.reload_flag,
    {
        ServerState { pid, pstart, shutdown_flag: false, reload_flag: false }
    }

    /// Request a server shutdown. Idempotent; nothing is ever cleared.
    pub fn request_shutdown(&mut self)
        ensures
            final(self).shutdown_flag,
            final(self).reload_flag == old(self).reload_flag,
            final(self).pid == old(self).pid,
            final(self).pstart == old(self).pstart,
    {
        self.shutdown_flag = true;
    }

    /// Request a reload: the current generation terminates, but by
    /// re-exec rather than plain shutdown.
    pub fn request_reload(&mut self)
        ensures
            final(self).reload_flag,
            final(self).shutdown_flag == old(self).shutdown_flag,
            final(self).pid == old(self).pid,
            final(self).pstart == old(self).pstart,
    {
        self.reload_flag = true;
    }

    /// Whether a shutdown was requested.
    pub fn shutdown_requested(&self) -> (r: bool)
        ensures
            r == self.shutdown_flag,
    {
        self.shutdown_flag
    }

    /// Whether the termination that was requested is a reload request.
    pub fn is_reload_request(&self) -> (r: bool)
        ensures
            r == self.reload_flag,
    {
        self.reload_flag
    }

    /// Raise an error if a shutdown was requested.
    pub fn fail_on_shutdown(&self) -> (r: Result<(), ShutdownError>)
        ensures
            r is Ok <==> !self.shutdown_flag,
    {
        if self.shutdown_flag {
            Err(ShutdownError)
        } else {
            Ok(())
        }
    }

    /// The control socket path of this server.
    pub fn our_ctrl_sock(&self) -> (r: String)
        ensures
            r@ == ctrl_sock_spec(self.pid as int),
    {
        ctrl_sock_from_pid(self.pid)
    }
}

/// The control socket path for a process ID: an abstract-namespace
/// socket under the historic prefix.
pub open spec fn ctrl_sock_spec(pid: int) -> Seq<char> {
    "\u{0}/run/proxmox-backup/control-"@ + int_digits(pid) + ".sock"@
}

/// Returns the control socket path for a specific process ID. The prefix
/// is kept for historic reasons; the path is unique per PID either way.
pub fn ctrl_sock_from_pid(pid: i32) -> (r: String)
    ensures
        r@ == ctrl_sock_spec(pid as int),
{
    let mut s = "\u{0}/run/proxmox-backup/control-".to_owned();
    let digits = i32_to_decimal(pid);
    s.append(digits.as_str());
    s.append(".sock");
    s
}

/// The contents of a PID file: the decimal process ID and a newline.
pub fn pid_file_contents(pid: i32) -> (r: String)
    ensures
        r@ == int_digits(pid as int) + "\n"@,
{
    let mut s = i32_to_decimal(pid);
    s.append("\n");
    s
}

/// An ASCII whitespace character, as found around a PID in a PID file.
pub open spec fn is_ascii_space(c: char) -> bool {
    c == ' ' || c == '\t' || c == '\n' || c == '\r'
}

/// `s` with leading whitespace removed.
pub open spec fn trim_start_spec(s: Seq<char>) -> Seq<char>
    decreases s.len(),
{
    if s.len() > 0 && is_ascii_space(s[0]) {
        trim_start_spec(s.skip(1))
    } else {
        s
    }
}

/// `s` with trailing whitespace removed.
pub open spec fn trim_end_spec(s: Seq<char>) -> Seq<char>
    decreases s.len(),
{
    if s.len() > 0 && is_ascii_space(s.last()) {
        trim_end_spec(s.drop_last())
    } else {
        s
    }
}

/// `s` with whitespace removed from both ends.
pub open spec fn trim_spec(s: Seq<char>) -> Seq<char> {
    trim_end_spec(trim_start_spec(s))
}

/// Whether the character is ASCII whitespace.
fn is_space_char(c: char) -> (r: bool)
    ensures
        r == is_ascii_space(c),
{
    c == ' ' || c == '\t' || c == '\n' || c == '\r'
}

/// Strip ASCII whitespace from both ends of a string slice.
pub fn trim_ascii(s: &str) -> (r: &str)
    ensures
        r@ == trim_spec(s@),
{
    let n = s.unicode_len();
    let mut a: usize = 0;
    proof {
        assert(s@.skip(0) =~= s@);
    }
    while a < n && is_space_char(s.get_char(a))
        invariant
            0 <= a <= n == s@.len(),
            trim_start_spec(s@) == trim_start_spec(s@.skip(a as int)),
        decreases n - a,
    {
        proof {
            assert(s@.skip(a as int)[0] == s@[a as int]);
            assert(s@.skip(a as int).skip(1) =~= s@.skip(a as int + 1));
        }
        a += 1;
    }
    proof {
        if a < n {
            assert(s@.skip(a as int)[0] == s@[a as int]);
        }
        assert(trim_start_spec(s@.skip(a as int)) == s@.skip(a as int));
    }
    let mut b: usize = n;
    while b > a && is_space_char(s.get_char(b - 1))
        invariant
            a <= b <= n == s@.len(),
            trim_start_spec(s@) == s@.skip(a as int),
            trim_end_spec(s@.skip(a as int)) == trim_end_spec(s@.subrange(a as int, b as int)),
        decreases b,
    {
        proof {
            let t = s@.subrange(a as int, b as int);
            assert(t.last() == s@[b - 1]);
            assert(t.drop_last() =~= s@.subrange(a as int, b as int - 1));
        }
        b -= 1;
    }
    proof {
        let t = s@.subrange(a as int, b as int);
        if b > a {
            assert(t.last() == s@[b - 1]);
        }
        assert(trim_end_spec(t) == t);
    }
    s.substring_char(a, b)
}

/// The error returned when a URI path holds an illegal (hidden or
/// relative) component.
#[derive(Clone, Copy, Debug)]
pub struct IllegalPathComponents;

impl IllegalPathComponents {
    /// The message of the error.
    pub fn message(&self) -> (r: &'static str)
        ensures
            r@ == "path contains illegal components"@,
    {
        "path contains illegal components"
    }
}

/// The effect of normalizing a path prefix, character by character: the
/// output built so far, the components already closed by a separator,
/// the component being read, and whether an illegal component (one
/// starting with '.') was seen. Empty components are dropped.
pub open spec fn npc_state(s: Seq<char>) -> (Seq<char>, Seq<Seq<char>>, Seq<char>, bool)
    decreases s.len(),
{
    if s.len() == 0 {
        (Seq::<char>::empty(), Seq::<Seq<char>>::empty(), Seq::<char>::empty(), false)
    } else {
        let st = npc_state(s.drop_last());
        let c = s.last();
        if st.3 {
            (st.0, st.1, st.2, true)
        } else if c == '/' {
            if st.2.len() > 0 {
                (st.0, st.1.push(st.2), Seq::<char>::empty(), false)
            } else {
                (st.0, st.1, st.2, false)
            }
        } else if st.2.len() == 0 && c == '.' {
            (st.0, st.1, st.2, true)
        } else if st.2.len() == 0 {
            (st.0 + seq!['/'] + seq![c], st.1, seq![c], false)
        } else {
            (st.0 + seq![c], st.1, st.2.push(c), false)
        }
    }
}

/// The normalized path: '/' before each nonempty component.
pub open spec fn normalized_path_spec(s: Seq<char>) -> Seq<char> {
    npc_state(s).0
}

/// Whether some nonempty component of the path starts with '.'.
pub open spec fn has_illegal_component(s: Seq<char>) -> bool {
    npc_state(s).3
}

/// All nonempty components of the path, in order.
pub open spec fn path_components_spec(s: Seq<char>) -> Seq<Seq<char>> {
    let st = npc_state(s);
    if st.2.len() > 0 {
        st.1.push(st.2)
    } else {
        st.1
    }
}

/// Once a prefix has seen an illegal component, the whole path has.
proof fn lemma_illegal_monotone(s: Seq<char>, j: int)
    requires
        0 <= j <= s.len(),
        npc_state(s.take(j)).3,
    ensures
        npc_state(s).3,
    decreases s.len() - j,
{
    if j < s.len() {
        assert(s.take(j + 1).drop_last() =~= s.take(j));
        assert(npc_state(s.take(j + 1)).3);
        lemma_illegal_monotone(s, j + 1);
    } else {
        assert(s.take(j) =~= s);
    }
}

/// Relies on String::push: appends the character to the string.
#[verifier::external_body]
pub(crate) fn string_push_char(s: &mut String, c: char)
    ensures
        final(s)@ == old(s)@ + seq![c],
{
    s.push(c);
}

/// Normalize a URI path: strip empty components and prefix each kept
/// component with '/'. A component starting with '.' is illegal.
pub fn normalize_path(path: &str) -> (r: Result<String, IllegalPathComponents>)
    ensures
        r matches Ok(p) ==> !has_illegal_component(path@) && p@ == normalized_path_spec(path@),
        r is Err <==> has_illegal_component(path@),
{
    let n = path.unicode_len();
    let mut out = String::new();
    let mut boundary: bool = true;
    let mut i: usize = 0;
    proof {
        assert(path@.take(0) =~= Seq::<char>::empty());
    }
    while i < n
        invariant
            0 <= i <= n == path@.len(),
            out@ == npc_state(path@.take(i as int)).0,
            boundary == (npc_state(path@.take(i as int)).2.len() == 0),
            !npc_state(path@.take(i as int)).3,
        decreases n - i,
    {
        let c = path.get_char(i);
        proof {
            assert(path@.take(i as int + 1).drop_last() =~= path@.take(i as int));
            assert(path@.take(i as int + 1).last() == path@[i as int]);
        }
        if c == '/' {
            boundary = true;
        } else if boundary && c == '.' {
            proof {
                assert(npc_state(path@.take(i as int + 1)).3);
                lemma_illegal_monotone(path@, i as int + 1);
            }
            return Err(IllegalPathComponents);
        } else {
            if boundary {
                string_push_char(&mut out, '/');
            }
            string_push_char(&mut out, c);
            boundary = false;
        }
        i += 1;
    }
    proof {
        assert(path@.take(n as int) =~= path@);
    }
    Ok(out)
}

/// Normalize a URI path and also return its kept components, in order.
/// Empty components are stripped; a component starting with '.' is
/// illegal.
pub fn normalize_path_with_components(path: &str) -> (r: Result<
    (String, Vec<String>),
    IllegalPathComponents,
>)
    ensures
        r matches Ok(pc) ==> !has_illegal_component(path@) && pc.0@ == normalized_path_spec(path@)
            && pc.1@.map_values(|x: String| x@) =~= path_components_spec(path@),
        r is Err <==> has_illegal_component(path@),
{
    let n = path.unicode_len();
    let mut out = String::new();
    let mut comps: Vec<String> = Vec::new();
    let mut cur = String::new();
    let mut i: usize = 0;
    proof {
        assert(path@.take(0) =~= Seq::<char>::empty());
        assert(comps@.map_values(|x: String| x@) =~= Seq::<Seq<char>>::empty());
    }
    while i < n
        invariant
            0 <= i <= n == path@.len(),
            out@ == npc_state(path@.take(i as int)).0,
            comps@.map_values(|x: String| x@) =~= npc_state(path@.take(i as int)).1,
            cur@ == npc_state(path@.take(i as int)).2,
            !npc_state(path@.take(i as int)).3,
        decreases n - i,
    {
        let c = path.get_char(i);
        proof {
            assert(path@.take(i as int + 1).drop_last() =~= path@.take(i as int));
            assert(path@.take(i as int + 1).last() == path@[i as int]);
        }
        if c == '/' {
            if !cur.as_str().is_empty() {
                let ghost before = comps@.map_values(|x: String| x@);
                comps.push(cur.clone());
                cur = String::new();
                proof {
                    assert(comps@.map_values(|x: String| x@) =~= before.push(
                        npc_state(path@.take(i as int)).2,
                    ));
                }
            }
        } else if cur.as_str().is_empty() && c == '.' {
            proof {
                assert(npc_state(path@.take(i as int + 1)).3);
                lemma_illegal_monotone(path@, i as int + 1);
            }
            return Err(IllegalPathComponents);
        } else {
            if cur.as_str().is_empty() {
                string_push_char(&mut out, '/');
            }
            string_push_char(&mut out, c);
            string_push_char(&mut cur, c);
            proof {
                assert(cur@ =~= npc_state(path@.take(i as int + 1)).2);
            }
        }
        i += 1;
    }
    proof {
        assert(path@.take(n as int) =~= path@);
    }
    if !cur.as_str().is_empty() {
        let ghost before = comps@.map_values(|x: String| x@);
        comps.push(cur);
        proof {
            assert(comps@.map_values(|x: String| x@) =~= before.push(npc_state(path@).2));
        }
    }
    Ok((out, comps))
}

/// The position of the first occurrence of a character.
pub open spec fn find_char(s: Seq<char>, c: char) -> Option<int>
    decreases s.len(),
{
    if s.len() == 0 {
        None
    } else if s[0] == c {
        Some(0)
    } else {
        match find_char(s.skip(1), c) {
            Some(i) => Some(i + 1),
            None => None,
        }
    }
}

pub proof fn lemma_find_char_bounds(s: Seq<char>, c: char)
    ensures
        find_char(s, c) matches Some(i) ==> 0 <= i < s.len() && s[i] == c,
    decreases s.len(),
{
    if s.len() > 0 && s[0] != c {
        lemma_find_char_bounds(s.skip(1), c);
    }
}

/// With no occurrence among the first `i` characters, the first
/// occurrence in `s` is the first occurrence past `i`, shifted.
proof fn lemma_find_char_skip(s: Seq<char>, c: char, i: int)
    requires
        0 <= i <= s.len(),
        forall|k: int| 0 <= k < i ==> s[k] != c,
    ensures
        find_char(s, c) == match find_char(s.skip(i), c) {
            Some(j) => Some(j + i),
            None => None::<int>,
        },
    decreases i,
{
    if i > 0 {
        assert(s[0] != c);
        lemma_find_char_skip(s.skip(1), c, i - 1);
        assert(s.skip(1).skip(i - 1) =~= s.skip(i));
    } else {
        assert(s.skip(0) =~= s);
    }
}

/// Find the first occurrence of a character in a string slice.
pub fn str_find_char(s: &str, c: char) -> (r: Option<usize>)
    ensures
        r matches Some(i) ==> find_char(s@, c) == Some(i as int),
        r is None ==> find_char(s@, c) is None,
{
    let n = s.unicode_len();
    let mut i: usize = 0;
    while i < n
        invariant
            0 <= i <= n == s@.len(),
            forall|k: int| 0 <= k < i ==> s@[k] != c,
        decreases n - i,
    {
        if s.get_char(i) == c {
            proof {
                lemma_find_char_skip(s@, c, i as int);
                assert(s@.skip(i as int)[0] == s@[i as int]);
            }
            return Some(i);
        }
        i += 1;
    }
    proof {
        lemma_find_char_skip(s@, c, n as int);
        assert(s@.skip(n as int).len() == 0);
    }
    None
}

/// Whether two string slices hold the same characters.
fn str_eq(a: &str, b: &str) -> (r: bool)
    ensures
        r == (a@ == b@),
{
    a.to_owned() == b.to_owned()
}

/// What looking a cookie up in a cookie header yields: the pairs are
/// separated by ';'; a pair without '=' is a format error that ends the
/// search; names and values are compared and returned trimmed. The value
/// returned here is the raw (still percent-encoded) text.
pub open spec fn cookie_lookup(s: Seq<char>, name: Seq<char>) -> Option<Seq<char>>
    decreases s.len(),
    via cookie_lookup_decreases
{
    let pair = match find_char(s, ';') {
        Some(i) => s.take(i),
        None => s,
    };
    match find_char(pair, '=') {
        None => None,
        Some(j) => {
            if trim_spec(pair.take(j)) == name {
                Some(trim_spec(pair.skip(j + 1)))
            } else {
                match find_char(s, ';') {
                    Some(i) => cookie_lookup(s.skip(i + 1), name),
                    None => None,
                }
            }
        },
    }
}

#[via_fn]
proof fn cookie_lookup_decreases(s: Seq<char>, name: Seq<char>) {
    lemma_find_char_bounds(s, ';');
}

/// The percent-decoded bytes of a cookie value, interpreted as UTF-8;
/// `None` where the bytes are not valid UTF-8.
pub uninterp spec fn percent_decoded(s: Seq<char>) -> Option<Seq<char>>;

/// Relies on percent_encoding::percent_decode and Cow decoding: the
/// result depends on the input characters alone.
#[verifier::external_body]
fn percent_decode_str(value: &str) -> (r: Option<String>)
    ensures
        r matches Some(v) ==> (percent_decoded(value@) matches Some(w) && v@ == w),
        r is None ==> percent_decoded(value@) is None,
{
    match percent_encoding::percent_decode(value.as_bytes()).decode_utf8() {
        Ok(cow) => Some(cow.into_owned()),
        Err(_) => None,
    }
}

/// Extract a specific cookie from a cookie header. The cookie name is
/// assumed to be url-encoded already; the value is returned decoded.
pub fn extract_cookie(cookie: &str, cookie_name: &str) -> (r: Option<String>)
    ensures
        ({
            match cookie_lookup(cookie@, cookie_name@) {
                Some(raw) => (percent_decoded(raw) matches Some(w) ==> (r matches Some(v) && v@
                    == w)) && (percent_decoded(raw) is None ==> r is None),
                None => r is None,
            }
        }),
    decreases cookie@.len(),
{
    let n = cookie.unicode_len();
    proof {
        lemma_find_char_bounds(cookie@, ';');
    }
    let sep = str_find_char(cookie, ';');
    let pair_end: usize = match sep {
        Some(i) => i,
        None => n,
    };
    let pair = cookie.substring_char(0, pair_end);
    proof {
        assert(pair@ =~= (match find_char(cookie@, ';') {
            Some(i) => cookie@.take(i),
            None => cookie@,
        }));
        lemma_find_char_bounds(pair@, '=');
    }
    match str_find_char(pair, '=') {
        None => None,
        Some(j) => {
            let name = trim_ascii(pair.substring_char(0, j));
            let value = trim_ascii(pair.substring_char(j + 1, pair_end));
            proof {
                assert(pair@.subrange(0, j as int) =~= pair@.take(j as int));
                assert(pair@.subrange(j as int + 1, pair_end as int) =~= pair@.skip(j as int + 1));
            }
            if str_eq(name, cookie_name) {
                percent_decode_str(value)
            } else {
                match sep {
                    Some(i) => {
                        let rest = cookie.substring_char(i + 1, n);
                        proof {
                            assert(rest@ =~= cookie@.skip(i as int + 1));
                        }
                        extract_cookie(rest, cookie_name)
                    },
                    None => None,
                }
            }
        },
    }
}

/// Parse the contents of a PID file: the decimal process ID, with
/// surrounding whitespace ignored.
pub fn read_pid(pid_text: &str) -> (r: Result<i32, DaemonError>)
    ensures
        r matches Ok(v) ==> valid_i32_text(trim_spec(pid_text@)) && v as int == i32_text_value(
            trim_spec(pid_text@),
        ),
        r matches Err(e) ==> e == DaemonError::ParseError && !valid_i32_text(trim_spec(pid_text@)),
{
    parse_i32_text(trim_ascii(pid_text))
}

} // verus!
