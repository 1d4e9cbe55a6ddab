//! The resource registry: collects, during one process lifetime, every
//! resource that must survive a re-exec, and turns them into environment
//! assignments right before the exec call.

use vstd::prelude::*;

use crate::decimal::{dec_digits, dec_value};
use crate::error::DaemonError;
use crate::resource::{valid_fd_token, Reloadable, StoredHandle};

verus! {

/// One registered resource: a stable name and the stored duplicate of
/// its handle, to be rendered as a token on demand.
pub struct PreExecEntry {
    pub name: String,
    pub handle: StoredHandle,
}

/// One environment assignment produced for the exec'd child.
pub struct EnvAssignment {
    pub name: String,
    pub value: String,
}

/// The assignment carries the entry's name and the canonical token of
/// its stored handle.
pub open spec fn assignment_matches(a: EnvAssignment, e: PreExecEntry) -> bool {
    a.name@ == e.name@ && a.value@ == dec_digits(e.handle.dup_fd as int)
}

/// What the exec call needs once the handshake has completed: the
/// executable path, the argument vector, and the resource environment.
pub struct ExecPlan {
    pub exe: String,
    pub args: Vec<String>,
    pub env: Vec<EnvAssignment>,
}

/// The resource registry. Entries are appended in registration order and
/// consumed exactly once, right before an exec.
pub struct Reloader {
    pub pre_exec: Vec<PreExecEntry>,
    pub self_exe: String,
}

impl Reloader {
    /// Every stored handle wraps a real descriptor.
    pub open spec fn wf(&self) -> bool {
        forall|i: int| 0 <= i < self.pre_exec@.len() ==> (#[trigger] self.pre_exec@[i]).handle.wf()
    }

    /// The registered names, in registration order.
    pub open spec fn names(&self) -> Seq<Seq<char>> {
        self.pre_exec@.map_values(|e: PreExecEntry| e.name@)
    }

    /// A fresh, empty registry for the executable at `self_exe`.
    pub fn new(self_exe: String) -> (r: Reloader)
        ensures
            r.wf(),
            r.pre_exec@.len() == 0,
            r.self_exe == self_exe,
    {
        Reloader { pre_exec: Vec::new(), self_exe }
    }

    /// Restore a resource from the value of its environment variable, or,
    /// if the variable is absent, create it with the supplied factory.
    /// Either way the resulting resource is registered under `name`, so a
    /// later reload can hand this exact resource forward again.
    ///
    /// A variable that is present but does not parse fails with
    /// `InvalidEnvironment`; the factory is then never consulted.
    pub fn restore<T: Reloadable, F: FnOnce() -> Result<T, DaemonError>>(
        &mut self,
        name: &str,
        env_value: Option<&str>,
        or_create: F,
    ) -> (r: Result<T, DaemonError>)
        requires
            old(self).wf(),
            call_requires(or_create, ()),
        ensures
            final(self).wf(),
            final(self).self_exe == old(self).self_exe,
            r matches Ok(_) ==> final(self).pre_exec@.len() == old(self).pre_exec@.len() + 1
                && final(self).pre_exec@.last().name@ == name@
                && final(self).pre_exec@.take(old(self).pre_exec@.len() as int) =~= old(
                    self,
                ).pre_exec@ && final(self).names() =~= old(self).names().push(name@),
            r matches Err(_) ==> *final(self) == *old(self),
            env_value matches Some(v) ==> {
                &&& !valid_fd_token(v@) ==> (r matches Err(e)
                    && e == DaemonError::InvalidEnvironment)
                &&& (r matches Ok(l) ==> valid_fd_token(v@) && l.handle_id() == dec_value(v@))
                &&& valid_fd_token(v@) ==> (r matches Err(e) ==> e matches DaemonError::OSError(
                    _,
                ))
            },
            env_value is None ==> {
                &&& (r matches Ok(l) ==> call_ensures(or_create, (), Ok(l)))
                &&& (r matches Err(e) ==> e matches DaemonError::OSError(_) || call_ensures(
                    or_create,
                    (),
                    Err(e),
                ))
            },
    {
        let res: T = match env_value {
            Some(v) => match T::restore(v) {
                Ok(l) => l,
                Err(DaemonError::ParseError) => {
                    return Err(DaemonError::InvalidEnvironment);
                },
                Err(e) => {
                    return Err(e);
                },
            },
            None => match or_create() {
                Ok(l) => l,
                Err(e) => {
                    return Err(e);
                },
            },
        };
        let handle = match res.get_store_func() {
            Ok(h) => h,
            Err(e) => {
                return Err(e);
            },
        };
        self.pre_exec.push(PreExecEntry { name: name.to_owned(), handle });
        proof {
            assert(self.names() =~= old(self).names().push(name@));
        }
        Ok(res)
    }

    /// Everything the exec call in the grandchild needs: the path of the
    /// running executable, the argument vector, and the environment
    /// assignments of every registered resource. The registry is
    /// consumed; registering after this point is impossible.
    pub fn reexec_plan(self, args: Vec<String>) -> (r: Result<ExecPlan, DaemonError>)
        requires
            self.wf(),
        ensures
            r matches Ok(p) ==> p.exe@ == self.self_exe@ && p.args == args && p.env@.len()
                == self.pre_exec@.len() && (forall|i: int|
                0 <= i < p.env@.len() ==> assignment_matches(#[trigger] p.env@[i],
                    self.pre_exec@[i])),
            r matches Err(e) ==> e matches DaemonError::OSError(_),
    {
        let exe = self.self_exe.clone();
        let env = match self.pre_exec() {
            Ok(v) => v,
            Err(e) => {
                return Err(e);
            },
        };
        Ok(ExecPlan { exe, args, env })
    }

    /// Consume the registry, producing one environment assignment per
    /// entry, in registration order: the entry's name and the token of
    /// its stored handle, whose close-on-exec property is cleared so it
    /// is inherited by the exec'd image.
    pub fn pre_exec(self) -> (r: Result<Vec<EnvAssignment>, DaemonError>)
        requires
            self.wf(),
        ensures
            r matches Ok(v) ==> v@.len() == self.pre_exec@.len() && (forall|i: int|
                0 <= i < v@.len() ==> assignment_matches(#[trigger] v@[i], self.pre_exec@[i])),
            r matches Err(e) ==> e matches DaemonError::OSError(_),
    {
        let entries = self.pre_exec;
        let mut out: Vec<EnvAssignment> = Vec::new();
        let mut i: usize = 0;
        while i < entries.len()
            invariant
                0 <= i <= entries.len(),
                entries@ == self.pre_exec@,
                self.wf(),
                out@.len() == i,
                forall|k: int|
                    0 <= k < i ==> assignment_matches(#[trigger] out@[k], entries@[k]),
            decreases entries.len() - i,
        {
            let value = match entries[i].handle.produce_token() {
                Ok(t) => t,
                Err(e) => {
                    return Err(e);
                },
            };
            let name = entries[i].name.clone();
            out.push(EnvAssignment { name, value });
            i += 1;
        }
        Ok(out)
    }
}

} // verus!
