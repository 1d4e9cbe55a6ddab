//! Extended-attribute helpers: name validation and the parsing of the
//! zero-separated name list an attribute listing returns.

use vstd::prelude::*;

verus! {

/// The attribute name holding file capabilities.
pub fn xattr_name_fcaps() -> (r: &'static str)
    ensures
        r@ == "security.capability"@,
{
    "security.capability"
}

/// The attribute name holding the POSIX ACL.
pub fn xattr_acl_access() -> (r: &'static str)
    ensures
        r@ == "system.posix_acl_access"@,
{
    "system.posix_acl_access"
}

/// The attribute name holding the default POSIX ACL.
pub fn xattr_acl_default() -> (r: &'static str)
    ensures
        r@ == "system.posix_acl_default"@,
{
    "system.posix_acl_default"
}

/// Whether `s` starts with `prefix`.
pub open spec fn starts_with(s: Seq<char>, prefix: Seq<char>) -> bool {
    s.len() >= prefix.len() && s.take(prefix.len() as int) == prefix
}

/// Whether a string slice starts with the given prefix.
fn str_starts_with(s: &str, prefix: &str) -> (r: bool)
    ensures
        r == starts_with(s@, prefix@),
{
    let n = s.unicode_len();
    let m = prefix.unicode_len();
    if n < m {
        assert(!starts_with(s@, prefix@));
        return false;
    }
    let mut i: usize = 0;
    while i < m
        invariant
            0 <= i <= m == prefix@.len(),
            m <= n == s@.len(),
            forall|k: int| 0 <= k < i ==> s@[k] == prefix@[k],
        decreases m - i,
    {
        if s.get_char(i) != prefix.get_char(i) {
            proof {
                assert(s@.take(m as int)[i as int] != prefix@[i as int]);
            }
            return false;
        }
        i += 1;
    }
    proof {
        assert(s@.take(m as int) =~= prefix@);
    }
    true
}

/// Whether two string slices hold the same characters.
fn names_equal(a: &str, b: &str) -> (r: bool)
    ensures
        r == (a@ == b@),
{
    a.to_owned() == b.to_owned()
}

/// Whether the name is the file-capability attribute.
pub fn is_security_capability(name: &str) -> (r: bool)
    ensures
        r == (name@ == "security.capability"@),
{
    names_equal(name, "security.capability")
}

/// Whether the name is one of the POSIX ACL attributes.
pub fn is_acl(name: &str) -> (r: bool)
    ensures
        r == (name@ == "system.posix_acl_access"@ || name@ == "system.posix_acl_default"@),
{
    names_equal(name, "system.posix_acl_access") || names_equal(name, "system.posix_acl_default")
}

/// A valid attribute name: nonempty, within the length limit, and in a
/// namespace this system stores or recognizes (the samba NT ACL name and
/// the file-capability name are recognized besides the user and trusted
/// namespaces).
pub open spec fn valid_xattr_name(s: Seq<char>) -> bool {
    &&& s.len() > 0
    &&& s.len() <= 255
    &&& (starts_with(s, "user."@) || starts_with(s, "trusted."@) || s == "security.NTACL"@ || s
        == "security.capability"@)
}

/// Check if the passed name starts with a valid attribute namespace
/// prefix and is within the length limit.
pub fn is_valid_xattr_name(c_name: &str) -> (r: bool)
    ensures
        r == valid_xattr_name(c_name@),
{
    let n = c_name.unicode_len();
    if n == 0 || n > 255 {
        return false;
    }
    if str_starts_with(c_name, "user.") || str_starts_with(c_name, "trusted.") {
        return true;
    }
    if names_equal(c_name, "security.NTACL") {
        return true;
    }
    is_security_capability(c_name)
}

/// The position of the first zero byte at or after `from`.
pub open spec fn find_nul(b: Seq<u8>, from: int) -> Option<int>
    decreases b.len() - from,
{
    if from < 0 || from >= b.len() {
        None
    } else if b[from] == 0 {
        Some(from)
    } else {
        find_nul(b, from + 1)
    }
}

/// The raw result of an attribute listing: attribute names separated
/// (and terminated) by zero bytes, exposed entry by entry.
pub struct ListXAttr {
    pub data: Vec<u8>,
}

impl ListXAttr {
    pub fn new(data: Vec<u8>) -> (r: ListXAttr)
        ensures
            r.data == data,
    {
        ListXAttr { data }
    }

    /// An entry cursor starting at the first entry.
    pub fn entries<'a>(&'a self) -> (r: ListXAttrIter<'a>)
        ensures
            r.list == self,
            r.at == 0,
    {
        ListXAttrIter { list: self, at: 0 }
    }
}

/// A cursor over the entries of a `ListXAttr`; each entry is handed out
/// with its terminating zero byte, as the kernel stored it.
pub struct ListXAttrIter<'a> {
    pub list: &'a ListXAttr,
    pub at: usize,
}

impl<'a> ListXAttrIter<'a> {
    /// The next zero-terminated entry, or `None` once no terminated
    /// entry remains.
    pub fn next(&mut self) -> (r: Option<Vec<u8>>)
        requires
            old(self).at <= old(self).list.data@.len(),
        ensures
            final(self).list == old(self).list,
            match find_nul(old(self).list.data@, old(self).at as int) {
                Some(k) => r matches Some(v) && v@ == old(self).list.data@.subrange(
                    old(self).at as int,
                    k + 1,
                ) && final(self).at == k + 1,
                None => r is None && final(self).at == old(self).at,
            },
            final(self).at <= final(self).list.data@.len(),
    {
        let n = self.list.data.len();
        let start = self.at;
        let mut i: usize = start;
        while i < n
            invariant
                self.list == old(self).list,
                self.at == old(self).at,
                start == old(self).at,
                start <= i <= n == self.list.data@.len(),
                find_nul(self.list.data@, start as int) == find_nul(self.list.data@, i as int),
            decreases n - i,
        {
            if self.list.data[i] == 0 {
                proof {
                    assert(find_nul(self.list.data@, i as int) == Some(i as int));
                }
                let mut out: Vec<u8> = Vec::new();
                let mut j: usize = start;
                while j <= i
                    invariant
                        self.list == old(self).list,
                        self.at == old(self).at,
                        start <= j <= i + 1,
                        i < n == self.list.data@.len(),
                        out@ =~= self.list.data@.subrange(start as int, j as int),
                    decreases i + 1 - j,
                {
                    out.push(self.list.data[j]);
                    proof {
                        assert(out@ =~= self.list.data@.subrange(start as int, j as int + 1));
                    }
                    j += 1;
                }
                self.at = i + 1;
                return Some(out);
            }
            i += 1;
        }
        proof {
            assert(find_nul(self.list.data@, n as int) is None);
        }
        None
    }
}

/// The buffer growth policy of the attribute system calls: when the
/// kernel reports a too-small buffer, double it; a size that cannot be
/// doubled is reported as out-of-memory (errno 12).
pub fn grow_buffer_size(size: usize) -> (r: Result<usize, i32>)
    ensures
        r matches Ok(n) ==> n == 2 * size,
        r matches Err(e) ==> e == 12i32 && 2 * size > usize::MAX,
{
    if size <= usize::MAX / 2 {
        Ok(size * 2)
    } else {
        Err(12)
    }
}

} // verus!
