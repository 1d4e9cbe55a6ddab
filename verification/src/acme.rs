//! ACME account helpers: the account listing and the parsing of contact
//! addresses into mailto URIs.

use vstd::prelude::*;
use vstd::string::StringExecFns;
use vstd::string::StrSliceExecFns;

use crate::server::string_push_char;

verus! {

/// An entry of the account list.
pub struct AccountEntry {
    pub name: String,
}

/// A separator between contact addresses.
pub open spec fn is_contact_sep(c: char) -> bool {
    c == ' ' || c == ';' || c == ',' || c == '\u{0}'
}

/// Splitting a contact string at separators, character by character: the
/// parts already closed, and the part being read. Empty parts are kept,
/// exactly as the address list splits.
pub open spec fn contact_state(s: Seq<char>) -> (Seq<Seq<char>>, Seq<char>)
    decreases s.len(),
{
    if s.len() == 0 {
        (Seq::<Seq<char>>::empty(), Seq::<char>::empty())
    } else {
        let st = contact_state(s.drop_last());
        let c = s.last();
        if is_contact_sep(c) {
            (st.0.push(st.1), Seq::<char>::empty())
        } else {
            (st.0, st.1.push(c))
        }
    }
}

/// The parts of a contact string: every separated piece, the last one
/// included.
pub open spec fn contact_parts(s: Seq<char>) -> Seq<Seq<char>> {
    let st = contact_state(s);
    st.0.push(st.1)
}

/// Turn a contact string into mailto URIs: one per separated piece, each
/// prefixed with "mailto:".
pub fn account_contact_from_string(s: &str) -> (r: Vec<String>)
    ensures
        r@.map_values(|x: String| x@) =~= contact_parts(s@).map_values(
            |p: Seq<char>| "mailto:"@ + p,
        ),
{
    let n = s.unicode_len();
    let mut out: Vec<String> = Vec::new();
    let mut cur: String = "mailto:".to_owned();
    let mut i: usize = 0;
    proof {
        assert(s@.take(0) =~= Seq::<char>::empty());
    }
    while i < n
        invariant
            0 <= i <= n == s@.len(),
            out@.map_values(|x: String| x@) =~= contact_state(s@.take(i as int)).0.map_values(
                |p: Seq<char>| "mailto:"@ + p,
            ),
            cur@ == "mailto:"@ + contact_state(s@.take(i as int)).1,
        decreases n - i,
    {
        let c = s.get_char(i);
        proof {
            assert(s@.take(i as int + 1).drop_last() =~= s@.take(i as int));
            assert(s@.take(i as int + 1).last() == s@[i as int]);
        }
        if c == ' ' || c == ';' || c == ',' || c == '\u{0}' {
            let ghost before = out@.map_values(|x: String| x@);
            out.push(cur);
            cur = "mailto:".to_owned();
            proof {
                assert(out@.map_values(|x: String| x@) =~= before.push(
                    "mailto:"@ + contact_state(s@.take(i as int)).1,
                ));
                assert(cur@ =~= "mailto:"@ + contact_state(s@.take(i as int + 1)).1);
            }
        } else {
            string_push_char(&mut cur, c);
            proof {
                assert(cur@ =~= "mailto:"@ + contact_state(s@.take(i as int + 1)).1);
            }
        }
        i += 1;
    }
    proof {
        assert(s@.take(n as int) =~= s@);
    }
    let ghost before = out@.map_values(|x: String| x@);
    out.push(cur);
    proof {
        assert(out@.map_values(|x: String| x@) =~= before.push(
            "mailto:"@ + contact_state(s@).1,
        ));
        assert(out@.map_values(|x: String| x@) =~= contact_parts(s@).map_values(
            |p: Seq<char>| "mailto:"@ + p,
        ));
    }
    out
}

/// The account list: one entry per configured account name, in the order
/// the names are handed over.
pub fn list_accounts(account_names: Vec<String>) -> (r: Vec<AccountEntry>)
    ensures
        r@.map_values(|e: AccountEntry| e.name@) =~= account_names@.map_values(|s: String| s@),
{
    let mut entries: Vec<AccountEntry> = Vec::new();
    let mut i: usize = 0;
    while i < account_names.len()
        invariant
            0 <= i <= account_names@.len(),
            entries@.len() == i,
            forall|k: int| 0 <= k < i ==> (#[trigger] entries@[k]).name@ == account_names@[k]@,
        decreases account_names@.len() - i,
    {
        entries.push(AccountEntry { name: account_names[i].clone() });
        i += 1;
    }
    proof {
        assert(entries@.map_values(|e: AccountEntry| e.name@) =~= account_names@.map_values(
            |s: String| s@,
        ));
    }
    entries
}

} // verus!
