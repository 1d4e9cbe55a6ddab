//! Access-control plugin initialization: the product's configuration and
//! the configuration directory, each set exactly once at daemon start.

use vstd::prelude::*;
use vstd::string::StringExecFns;

verus! {

/// What a product implements to get ACL-tree based access control
/// management from this plugin.
pub trait AccessControlConfig {
    /// All recognized privileges and their bit values.
    fn privileges(&self) -> Vec<(String, u64)>;

    /// All recognized roles and their bit values.
    fn roles(&self) -> Vec<(String, u64)>;

    /// A role that has no access to any resource, if the product has one.
    fn role_no_access(&self) -> (r: Option<String>) {
        None
    }

    /// A role that is allowed to access all resources, if the product
    /// has one.
    fn role_admin(&self) -> (r: Option<String>) {
        None
    }
}

/// The error of initializing the access control setup twice.
#[derive(Clone, Copy, Debug)]
pub struct AccessControlInitError;

impl AccessControlInitError {
    /// The message of the error.
    pub fn message(&self) -> (r: &'static str)
        ensures
            r@ == "cannot initialize acl tree config twice!"@,
    {
        "cannot initialize acl tree config twice!"
    }
}

/// The process-wide access control setup. Both parts start unset and can
/// be set exactly once.
pub struct AccessControlSetup<C> {
    pub config: Option<C>,
    pub config_dir: Option<String>,
}

impl<C> AccessControlSetup<C> {
    /// The setup before initialization: nothing is set.
    pub fn new() -> (r: AccessControlSetup<C>)
        ensures
            r.config is None,
            r.config_dir is None,
    {
        AccessControlSetup { config: None, config_dir: None }
    }

    /// Set the product's configuration; fails if one was already set.
    pub fn init_access_config(&mut self, config: C) -> (r: Result<(), AccessControlInitError>)
        ensures
            old(self).config is Some ==> r is Err && *final(self) == *old(self),
            old(self).config is None ==> r is Ok && final(self).config == Some(config)
                && final(self).config_dir == old(self).config_dir,
    {
        if self.config.is_some() {
            return Err(AccessControlInitError);
        }
        self.config = Some(config);
        Ok(())
    }

    /// Set the configuration directory; fails if one was already set.
    pub fn init_access_config_dir(&mut self, config_dir: String) -> (r: Result<
        (),
        AccessControlInitError,
    >)
        ensures
            old(self).config_dir is Some ==> r is Err && *final(self) == *old(self),
            old(self).config_dir is None ==> r is Ok && final(self).config_dir == Some(config_dir)
                && final(self).config == old(self).config,
    {
        if self.config_dir.is_some() {
            return Err(AccessControlInitError);
        }
        self.config_dir = Some(config_dir);
        Ok(())
    }

    /// Initialize the plugin: store the product's configuration, then the
    /// configuration directory. Fails on the part that was already set.
    pub fn init(&mut self, acm_config: C, config_dir: String) -> (r: Result<
        (),
        AccessControlInitError,
    >)
        ensures
            old(self).config is Some ==> r is Err && *final(self) == *old(self),
            old(self).config is None ==> final(self).config == Some(acm_config) && (match old(self).config_dir {
                Some(_) => r is Err && final(self).config_dir == old(self).config_dir,
                None => r is Ok && final(self).config_dir == Some(config_dir),
            }),
    {
        match self.init_access_config(acm_config) {
            Ok(()) => {},
            Err(e) => {
                return Err(e);
            },
        }
        self.init_access_config_dir(config_dir)
    }

    /// The stored configuration; initialization must have happened.
    pub fn access_conf(&self) -> (r: &C)
        requires
            self.config is Some,
        ensures
            Some(*r) == self.config,
    {
        match &self.config {
            Some(c) => c,
            None => unreached(),
        }
    }

    /// The stored configuration directory; initialization must have
    /// happened.
    pub fn conf_dir(&self) -> (r: &String)
        requires
            self.config_dir is Some,
        ensures
            Some(*r) == self.config_dir,
    {
        match &self.config_dir {
            Some(d) => d,
            None => unreached(),
        }
    }

    /// The path of the ACL configuration file.
    pub fn acl_config(&self) -> (r: String)
        requires
            self.config_dir is Some,
        ensures
            r@ == self.config_dir->Some_0@ + "/acl.cfg"@,
    {
        let mut s = self.conf_dir().clone();
        s.append("/acl.cfg");
        s
    }

    /// The path of the ACL configuration lock file.
    pub fn acl_config_lock(&self) -> (r: String)
        requires
            self.config_dir is Some,
        ensures
            r@ == self.config_dir->Some_0@ + "/.acl.lck"@,
    {
        let mut s = self.conf_dir().clone();
        s.append("/.acl.lck");
        s
    }
}

} // verus!
