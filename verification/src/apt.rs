//! Standard APT repositories: the fixed set of repository handles a
//! product knows, and the data each handle stands for.

use vstd::prelude::*;
use vstd::string::StringExecFns;

verus! {

/// The package type of a repository line.
#[derive(Clone, Copy, Debug, PartialEq, Eq, Structural)]
pub enum APTRepositoryPackageType {
    /// Binary packages.
    Deb,
    /// Source packages.
    DebSrc,
}

/// The on-disk format of a repository file.
#[derive(Clone, Copy, Debug, PartialEq, Eq, Structural)]
pub enum APTRepositoryFileType {
    /// One-line format.
    List,
    /// deb822 format.
    Sources,
}

/// One option of a repository line.
pub struct APTRepositoryOption {
    pub key: String,
    pub values: Vec<String>,
}

/// A repository line of an APT configuration file.
pub struct APTRepository {
    pub types: Vec<APTRepositoryPackageType>,
    pub uris: Vec<String>,
    pub suites: Vec<String>,
    pub components: Vec<String>,
    pub options: Vec<APTRepositoryOption>,
    pub comment: String,
    pub file_type: APTRepositoryFileType,
    pub enabled: bool,
}

/// Handles for the standard repositories.
#[derive(Clone, Copy, Debug, PartialEq, Eq, Structural)]
pub enum APTRepositoryHandle {
    /// The enterprise repository for production use.
    Enterprise,
    /// The repository that can be used without subscription.
    NoSubscription,
    /// The test repository.
    Test,
    /// Ceph Quincy enterprise repository.
    CephQuincyEnterprise,
    /// Ceph Quincy no-subscription repository.
    CephQuincyNoSubscription,
    /// Ceph Quincy test repository.
    CephQuincyTest,
    /// Ceph Reef enterprise repository.
    CephReefEnterprise,
    /// Ceph Reef no-subscription repository.
    CephReefNoSubscription,
    /// Ceph Reef test repository.
    CephReefTest,
}

/// Reference to a standard repository and configuration status.
pub struct APTStandardRepository {
    /// Handle referencing a standard repository.
    pub handle: APTRepositoryHandle,
    /// Configuration status of the associated repository, where `None`
    /// means not configured, and `Some(bool)` indicates enabled or
    /// disabled.
    pub status: Option<bool>,
    /// Display name of the repository.
    pub name: String,
    /// Description of the repository.
    pub description: String,
}

/// The identifier of a handle, as it appears in API requests.
pub open spec fn handle_ident_spec(h: APTRepositoryHandle) -> Seq<char> {
    match h {
        APTRepositoryHandle::Enterprise => "enterprise"@,
        APTRepositoryHandle::NoSubscription => "no-subscription"@,
        APTRepositoryHandle::Test => "test"@,
        APTRepositoryHandle::CephQuincyEnterprise => "ceph-quincy-enterprise"@,
        APTRepositoryHandle::CephQuincyNoSubscription => "ceph-quincy-no-subscription"@,
        APTRepositoryHandle::CephQuincyTest => "ceph-quincy-test"@,
        APTRepositoryHandle::CephReefEnterprise => "ceph-reef-enterprise"@,
        APTRepositoryHandle::CephReefNoSubscription => "ceph-reef-no-subscription"@,
        APTRepositoryHandle::CephReefTest => "ceph-reef-test"@,
    }
}

/// The error of parsing an unknown repository handle.
#[derive(Clone, Copy, Debug)]
pub struct UnknownRepositoryHandle;

impl UnknownRepositoryHandle {
    /// The message of the error.
    pub fn message(&self) -> (r: &'static str)
        ensures
            r@ == "unknown repository handle"@,
    {
        "unknown repository handle"
    }
}

/// Whether two string slices hold the same characters.
fn ident_eq(a: &str, b: &str) -> (r: bool)
    ensures
        r == (a@ == b@),
{
    a.to_owned() == b.to_owned()
}

impl APTRepositoryHandle {
    /// Render the handle as its identifier.
    pub fn display(self) -> (r: String)
        ensures
            r@ == handle_ident_spec(self),
    {
        match self {
            APTRepositoryHandle::Enterprise => "enterprise".to_owned(),
            APTRepositoryHandle::NoSubscription => "no-subscription".to_owned(),
            APTRepositoryHandle::Test => "test".to_owned(),
            APTRepositoryHandle::CephQuincyEnterprise => "ceph-quincy-enterprise".to_owned(),
            APTRepositoryHandle::CephQuincyNoSubscription => "ceph-quincy-no-subscription"
                .to_owned(),
            APTRepositoryHandle::CephQuincyTest => "ceph-quincy-test".to_owned(),
            APTRepositoryHandle::CephReefEnterprise => "ceph-reef-enterprise".to_owned(),
            APTRepositoryHandle::CephReefNoSubscription => "ceph-reef-no-subscription".to_owned(),
            APTRepositoryHandle::CephReefTest => "ceph-reef-test".to_owned(),
        }
    }

    /// Parse a handle from its identifier.
    pub fn try_from(string: &str) -> (r: Result<APTRepositoryHandle, UnknownRepositoryHandle>)
        ensures
            r matches Ok(h) ==> string@ == handle_ident_spec(h),
            r is Err <==> (forall|h: APTRepositoryHandle| string@ != handle_ident_spec(h)),
    {
        if ident_eq(string, "enterprise") {
            proof {
                assert(string@ == handle_ident_spec(APTRepositoryHandle::Enterprise));
            }
            Ok(APTRepositoryHandle::Enterprise)
        } else if ident_eq(string, "no-subscription") {
            proof {
                assert(string@ == handle_ident_spec(APTRepositoryHandle::NoSubscription));
            }
            Ok(APTRepositoryHandle::NoSubscription)
        } else if ident_eq(string, "test") {
            proof {
                assert(string@ == handle_ident_spec(APTRepositoryHandle::Test));
            }
            Ok(APTRepositoryHandle::Test)
        } else if ident_eq(string, "ceph-quincy-enterprise") {
            proof {
                assert(string@ == handle_ident_spec(APTRepositoryHandle::CephQuincyEnterprise));
            }
            Ok(APTRepositoryHandle::CephQuincyEnterprise)
        } else if ident_eq(string, "ceph-quincy-no-subscription") {
            proof {
                assert(string@ == handle_ident_spec(APTRepositoryHandle::CephQuincyNoSubscription));
            }
            Ok(APTRepositoryHandle::CephQuincyNoSubscription)
        } else if ident_eq(string, "ceph-quincy-test") {
            proof {
                assert(string@ == handle_ident_spec(APTRepositoryHandle::CephQuincyTest));
            }
            Ok(APTRepositoryHandle::CephQuincyTest)
        } else if ident_eq(string, "ceph-reef-enterprise") {
            proof {
                assert(string@ == handle_ident_spec(APTRepositoryHandle::CephReefEnterprise));
            }
            Ok(APTRepositoryHandle::CephReefEnterprise)
        } else if ident_eq(string, "ceph-reef-no-subscription") {
            proof {
                assert(string@ == handle_ident_spec(APTRepositoryHandle::CephReefNoSubscription));
            }
            Ok(APTRepositoryHandle::CephReefNoSubscription)
        } else if ident_eq(string, "ceph-reef-test") {
            proof {
                assert(string@ == handle_ident_spec(APTRepositoryHandle::CephReefTest));
            }
            Ok(APTRepositoryHandle::CephReefTest)
        } else {
            proof {
                assert forall|h: APTRepositoryHandle| string@ != handle_ident_spec(h) by {
                    match h {
                        APTRepositoryHandle::Enterprise => {},
                        APTRepositoryHandle::NoSubscription => {},
                        APTRepositoryHandle::Test => {},
                        APTRepositoryHandle::CephQuincyEnterprise => {},
                        APTRepositoryHandle::CephQuincyNoSubscription => {},
                        APTRepositoryHandle::CephQuincyTest => {},
                        APTRepositoryHandle::CephReefEnterprise => {},
                        APTRepositoryHandle::CephReefNoSubscription => {},
                        APTRepositoryHandle::CephReefTest => {},
                    }
                }
            }
            Err(UnknownRepositoryHandle)
        }
    }
}

impl APTStandardRepository {
    /// The standard-repository entry of a handle: not yet configured,
    /// carrying the handle's display name and description.
    pub fn from_handle(handle: APTRepositoryHandle) -> (r: APTStandardRepository)
        ensures
            r.handle == handle,
            r.status is None,
            r.name@ == handle.spec_name(),
            r.description@ == handle.spec_description(),
    {
        APTStandardRepository {
            handle,
            status: None,
            name: handle.name(),
            description: handle.description(),
        }
    }
}

/// What a repository handle stands for: its description, display name,
/// standard file path, and the package type, URIs and component of the
/// repository it references.
pub trait APTRepositoryHandleImpl: Sized + Copy {
    /// The description text of the repository.
    spec fn spec_description(self) -> Seq<char>;

    /// The display name of the repository.
    spec fn spec_name(self) -> Seq<char>;

    /// The standard file path of the repository, for a product.
    spec fn spec_path(self, product: Seq<char>) -> Seq<char>;

    /// Package type, possible URIs (the first is preferred) and the
    /// component, for a product.
    spec fn spec_info(self, product: Seq<char>) -> (APTRepositoryPackageType, Seq<Seq<char>>, Seq<
        char,
    >);

    /// Get the description for the repository.
    fn description(self) -> (r: String)
        ensures
            r@ == self.spec_description(),
    ;

    /// Get the display name of the repository.
    fn name(self) -> (r: String)
        ensures
            r@ == self.spec_name(),
    ;

    /// Get the standard file path for the repository referenced by the
    /// handle.
    fn path(self, product: &str) -> (r: String)
        ensures
            r@ == self.spec_path(product@),
    ;

    /// Get package type, possible URIs and the component associated with
    /// the handle. The first URI is the preferred one.
    fn info(self, product: &str) -> (r: (APTRepositoryPackageType, Vec<String>, String))
        ensures
            r.0 == self.spec_info(product@).0,
            r.1@.map_values(|s: String| s@) =~= self.spec_info(product@).1,
            r.2@ == self.spec_info(product@).2,
    ;

    /// Get the standard repository referenced by the handle: one line
    /// with the preferred URI, the given suite, and the handle's
    /// component, enabled and without options or comment.
    fn to_repository(self, product: &str, suite: &str) -> (r: APTRepository)
        requires
            self.spec_info(product@).1.len() > 0,
        ensures
            r.types@ =~= seq![self.spec_info(product@).0],
            r.uris@.map_values(|s: String| s@) =~= seq![self.spec_info(product@).1[0]],
            r.suites@.map_values(|s: String| s@) =~= seq![suite@],
            r.components@.map_values(|s: String| s@) =~= seq![self.spec_info(product@).2],
            r.options@.len() == 0,
            r.comment@.len() == 0,
            r.file_type == APTRepositoryFileType::List,
            r.enabled,
    ;
}

/// The concatenation of two string slices.
fn concat_str(a: &str, b: &str) -> (r: String)
    ensures
        r@ == a@ + b@,
{
    let mut s = a.to_owned();
    s.append(b);
    s
}

impl APTRepositoryHandleImpl for APTRepositoryHandle {
    open spec fn spec_description(self) -> Seq<char> {
        match self {
            APTRepositoryHandle::Enterprise => "This is the default, stable, and recommended repository, available for all Proxmox subscription users."@,
            APTRepositoryHandle::NoSubscription => "This is the recommended repository for testing and non-production use. Its packages are not as heavily tested and validated as the production ready enterprise repository. You don't need a subscription key to access this repository."@,
            APTRepositoryHandle::Test => "This repository contains the latest packages and is primarily used for test labs and by developers to test new features."@,
            APTRepositoryHandle::CephQuincyEnterprise => "This repository holds the production-ready Proxmox Ceph Quincy packages."@,
            APTRepositoryHandle::CephQuincyNoSubscription => "This repository holds the Proxmox Ceph Quincy packages intended for non-production use. The deprecated 'main' repository is an alias for this in Proxmox VE 8."@,
            APTRepositoryHandle::CephQuincyTest => "This repository contains the Ceph Quincy packages before they are moved to the main repository."@,
            APTRepositoryHandle::CephReefEnterprise => "This repository holds the production-ready Proxmox Ceph Reef packages."@,
            APTRepositoryHandle::CephReefNoSubscription => "This repository holds the Proxmox Ceph Reef packages intended for non-production use."@,
            APTRepositoryHandle::CephReefTest => "This repository contains the Ceph Reef packages before they are moved to the main repository."@,
        }
    }

    open spec fn spec_name(self) -> Seq<char> {
        match self {
            APTRepositoryHandle::Enterprise => "Enterprise"@,
            APTRepositoryHandle::NoSubscription => "No-Subscription"@,
            APTRepositoryHandle::Test => "Test"@,
            APTRepositoryHandle::CephQuincyEnterprise => "Ceph Quincy Enterprise"@,
            APTRepositoryHandle::CephQuincyNoSubscription => "Ceph Quincy No-Subscription"@,
            APTRepositoryHandle::CephQuincyTest => "Ceph Quincy Test"@,
            APTRepositoryHandle::CephReefEnterprise => "Ceph Reef Enterprise"@,
            APTRepositoryHandle::CephReefNoSubscription => "Ceph Reef No-Subscription"@,
            APTRepositoryHandle::CephReefTest => "Ceph Reef Test"@,
        }
    }

    open spec fn spec_path(self, product: Seq<char>) -> Seq<char> {
        match self {
            APTRepositoryHandle::Enterprise => "/etc/apt/sources.list.d/"@ + product
                + "-enterprise.list"@,
            APTRepositoryHandle::NoSubscription => "/etc/apt/sources.list"@,
            APTRepositoryHandle::Test => "/etc/apt/sources.list"@,
            _ => "/etc/apt/sources.list.d/ceph.list"@,
        }
    }

    open spec fn spec_info(self, product: Seq<char>) -> (APTRepositoryPackageType, Seq<Seq<char>>, Seq<char>) {
        match self {
            APTRepositoryHandle::Enterprise => (
                APTRepositoryPackageType::Deb,
                if product == "pve"@ {
                    seq![
                        "https://enterprise.proxmox.com/debian/pve"@,
                        "https://enterprise.proxmox.com/debian"@,
                    ]
                } else {
                    seq!["https://enterprise.proxmox.com/debian/"@ + product]
                },
                product + "-enterprise"@,
            ),
            APTRepositoryHandle::NoSubscription => (
                APTRepositoryPackageType::Deb,
                if product == "pve"@ {
                    seq![
                        "http://download.proxmox.com/debian/pve"@,
                        "http://download.proxmox.com/debian"@,
                    ]
                } else {
                    seq!["http://download.proxmox.com/debian/"@ + product]
                },
                product + "-no-subscription"@,
            ),
            APTRepositoryHandle::Test => (
                APTRepositoryPackageType::Deb,
                if product == "pve"@ {
                    seq![
                        "http://download.proxmox.com/debian/pve"@,
                        "http://download.proxmox.com/debian"@,
                    ]
                } else {
                    seq!["http://download.proxmox.com/debian/"@ + product]
                },
                product + "test"@,
            ),
            APTRepositoryHandle::CephQuincyEnterprise => (
                APTRepositoryPackageType::Deb,
                seq!["https://enterprise.proxmox.com/debian/ceph-quincy"@],
                "enterprise"@,
            ),
            APTRepositoryHandle::CephQuincyNoSubscription => (
                APTRepositoryPackageType::Deb,
                seq!["http://download.proxmox.com/debian/ceph-quincy"@],
                "no-subscription"@,
            ),
            APTRepositoryHandle::CephQuincyTest => (
                APTRepositoryPackageType::Deb,
                seq!["http://download.proxmox.com/debian/ceph-quincy"@],
                "test"@,
            ),
            APTRepositoryHandle::CephReefEnterprise => (
                APTRepositoryPackageType::Deb,
                seq!["https://enterprise.proxmox.com/debian/ceph-reef"@],
                "enterprise"@,
            ),
            APTRepositoryHandle::CephReefNoSubscription => (
                APTRepositoryPackageType::Deb,
                seq!["http://download.proxmox.com/debian/ceph-reef"@],
                "no-subscription"@,
            ),
            APTRepositoryHandle::CephReefTest => (
                APTRepositoryPackageType::Deb,
                seq!["http://download.proxmox.com/debian/ceph-reef"@],
                "test"@,
            ),
        }
    }

    fn description(self) -> (r: String) {
        match self {
            APTRepositoryHandle::Enterprise => "This is the default, stable, and recommended repository, available for all Proxmox subscription users.".to_owned(),
            APTRepositoryHandle::NoSubscription => "This is the recommended repository for testing and non-production use. Its packages are not as heavily tested and validated as the production ready enterprise repository. You don't need a subscription key to access this repository.".to_owned(),
            APTRepositoryHandle::Test => "This repository contains the latest packages and is primarily used for test labs and by developers to test new features.".to_owned(),
            APTRepositoryHandle::CephQuincyEnterprise => "This repository holds the production-ready Proxmox Ceph Quincy packages.".to_owned(),
            APTRepositoryHandle::CephQuincyNoSubscription => "This repository holds the Proxmox Ceph Quincy packages intended for non-production use. The deprecated 'main' repository is an alias for this in Proxmox VE 8.".to_owned(),
            APTRepositoryHandle::CephQuincyTest => "This repository contains the Ceph Quincy packages before they are moved to the main repository.".to_owned(),
            APTRepositoryHandle::CephReefEnterprise => "This repository holds the production-ready Proxmox Ceph Reef packages.".to_owned(),
            APTRepositoryHandle::CephReefNoSubscription => "This repository holds the Proxmox Ceph Reef packages intended for non-production use.".to_owned(),
            APTRepositoryHandle::CephReefTest => "This repository contains the Ceph Reef packages before they are moved to the main repository.".to_owned(),
        }
    }

    fn name(self) -> (r: String) {
        match self {
            APTRepositoryHandle::Enterprise => "Enterprise".to_owned(),
            APTRepositoryHandle::NoSubscription => "No-Subscription".to_owned(),
            APTRepositoryHandle::Test => "Test".to_owned(),
            APTRepositoryHandle::CephQuincyEnterprise => "Ceph Quincy Enterprise".to_owned(),
            APTRepositoryHandle::CephQuincyNoSubscription => "Ceph Quincy No-Subscription"
                .to_owned(),
            APTRepositoryHandle::CephQuincyTest => "Ceph Quincy Test".to_owned(),
            APTRepositoryHandle::CephReefEnterprise => "Ceph Reef Enterprise".to_owned(),
            APTRepositoryHandle::CephReefNoSubscription => "Ceph Reef No-Subscription".to_owned(),
            APTRepositoryHandle::CephReefTest => "Ceph Reef Test".to_owned(),
        }
    }

    fn path(self, product: &str) -> (r: String) {
        match self {
            APTRepositoryHandle::Enterprise => {
                let mut s = concat_str("/etc/apt/sources.list.d/", product);
                s.append("-enterprise.list");
                s
            },
            APTRepositoryHandle::NoSubscription => "/etc/apt/sources.list".to_owned(),
            APTRepositoryHandle::Test => "/etc/apt/sources.list".to_owned(),
            _ => "/etc/apt/sources.list.d/ceph.list".to_owned(),
        }
    }

    fn info(self, product: &str) -> (r: (APTRepositoryPackageType, Vec<String>, String)) {
        match self {
            APTRepositoryHandle::Enterprise => {
                let mut uris: Vec<String> = Vec::new();
                if ident_eq(product, "pve") {
                    uris.push("https://enterprise.proxmox.com/debian/pve".to_owned());
                    uris.push("https://enterprise.proxmox.com/debian".to_owned());
                } else {
                    uris.push(concat_str("https://enterprise.proxmox.com/debian/", product));
                }
                proof {
                    assert(uris@.map_values(|s: String| s@) =~= self.spec_info(product@).1);
                }
                (APTRepositoryPackageType::Deb, uris, concat_str(product, "-enterprise"))
            },
            APTRepositoryHandle::NoSubscription => {
                let mut uris: Vec<String> = Vec::new();
                if ident_eq(product, "pve") {
                    uris.push("http://download.proxmox.com/debian/pve".to_owned());
                    uris.push("http://download.proxmox.com/debian".to_owned());
                } else {
                    uris.push(concat_str("http://download.proxmox.com/debian/", product));
                }
                proof {
                    assert(uris@.map_values(|s: String| s@) =~= self.spec_info(product@).1);
                }
                (APTRepositoryPackageType::Deb, uris, concat_str(product, "-no-subscription"))
            },
            APTRepositoryHandle::Test => {
                let mut uris: Vec<String> = Vec::new();
                if ident_eq(product, "pve") {
                    uris.push("http://download.proxmox.com/debian/pve".to_owned());
                    uris.push("http://download.proxmox.com/debian".to_owned());
                } else {
                    uris.push(concat_str("http://download.proxmox.com/debian/", product));
                }
                proof {
                    assert(uris@.map_values(|s: String| s@) =~= self.spec_info(product@).1);
                }
                (APTRepositoryPackageType::Deb, uris, concat_str(product, "test"))
            },
            APTRepositoryHandle::CephQuincyEnterprise => {
                let mut uris: Vec<String> = Vec::new();
                uris.push("https://enterprise.proxmox.com/debian/ceph-quincy".to_owned());
                proof {
                    assert(uris@.map_values(|s: String| s@) =~= self.spec_info(product@).1);
                }
                (APTRepositoryPackageType::Deb, uris, "enterprise".to_owned())
            },
            APTRepositoryHandle::CephQuincyNoSubscription => {
                let mut uris: Vec<String> = Vec::new();
                uris.push("http://download.proxmox.com/debian/ceph-quincy".to_owned());
                proof {
                    assert(uris@.map_values(|s: String| s@) =~= self.spec_info(product@).1);
                }
                (APTRepositoryPackageType::Deb, uris, "no-subscription".to_owned())
            },
            APTRepositoryHandle::CephQuincyTest => {
                let mut uris: Vec<String> = Vec::new();
                uris.push("http://download.proxmox.com/debian/ceph-quincy".to_owned());
                proof {
                    assert(uris@.map_values(|s: String| s@) =~= self.spec_info(product@).1);
                }
                (APTRepositoryPackageType::Deb, uris, "test".to_owned())
            },
            APTRepositoryHandle::CephReefEnterprise => {
                let mut uris: Vec<String> = Vec::new();
                uris.push("https://enterprise.proxmox.com/debian/ceph-reef".to_owned());
                proof {
                    assert(uris@.map_values(|s: String| s@) =~= self.spec_info(product@).1);
                }
                (APTRepositoryPackageType::Deb, uris, "enterprise".to_owned())
            },
            APTRepositoryHandle::CephReefNoSubscription => {
                let mut uris: Vec<String> = Vec::new();
                uris.push("http://download.proxmox.com/debian/ceph-reef".to_owned());
                proof {
                    assert(uris@.map_values(|s: String| s@) =~= self.spec_info(product@).1);
                }
                (APTRepositoryPackageType::Deb, uris, "no-subscription".to_owned())
            },
            APTRepositoryHandle::CephReefTest => {
                let mut uris: Vec<String> = Vec::new();
                uris.push("http://download.proxmox.com/debian/ceph-reef".to_owned());
                proof {
                    assert(uris@.map_values(|s: String| s@) =~= self.spec_info(product@).1);
                }
                (APTRepositoryPackageType::Deb, uris, "test".to_owned())
            },
        }
    }

    fn to_repository(self, product: &str, suite: &str) -> (r: APTRepository) {
        let (package_type, mut uris, component) = self.info(product);
        let first = uris.remove(0);
        let mut types: Vec<APTRepositoryPackageType> = Vec::new();
        types.push(package_type);
        let mut out_uris: Vec<String> = Vec::new();
        out_uris.push(first);
        let mut suites: Vec<String> = Vec::new();
        suites.push(suite.to_owned());
        let mut components: Vec<String> = Vec::new();
        components.push(component);
        proof {
            assert(out_uris@.map_values(|s: String| s@) =~= seq![self.spec_info(product@).1[0]]);
            assert(suites@.map_values(|s: String| s@) =~= seq![suite@]);
            assert(components@.map_values(|s: String| s@) =~= seq![self.spec_info(product@).2]);
        }
        APTRepository {
            types,
            uris: out_uris,
            suites,
            components,
            options: Vec::new(),
            comment: String::new(),
            file_type: APTRepositoryFileType::List,
            enabled: true,
        }
    }
}

} // verus!
