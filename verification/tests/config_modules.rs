//! Tests of the configuration modules: standard APT repositories, DNS
//! configuration, access-control setup, ACME accounts, and extended
//! attribute names.

use proxmox_daemon::access::{AccessControlConfig, AccessControlSetup};
use proxmox_daemon::acme::{account_contact_from_string, list_accounts};
use proxmox_daemon::apt::{
    APTRepositoryFileType, APTRepositoryHandle, APTRepositoryHandleImpl,
    APTRepositoryPackageType, APTStandardRepository,
};
use proxmox_daemon::dns::{read_etc_resolv_conf, update_dns, DeletableResolvConfProperty, ResolvConf};
use proxmox_daemon::xattr::{
    grow_buffer_size, is_acl, is_security_capability, is_valid_xattr_name, xattr_name_fcaps,
    ListXAttr,
};

const ALL_HANDLES: [APTRepositoryHandle; 9] = [
    APTRepositoryHandle::Enterprise,
    APTRepositoryHandle::NoSubscription,
    APTRepositoryHandle::Test,
    APTRepositoryHandle::CephQuincyEnterprise,
    APTRepositoryHandle::CephQuincyNoSubscription,
    APTRepositoryHandle::CephQuincyTest,
    APTRepositoryHandle::CephReefEnterprise,
    APTRepositoryHandle::CephReefNoSubscription,
    APTRepositoryHandle::CephReefTest,
];

#[test]
fn handle_identifiers_round_trip() {
    for handle in ALL_HANDLES {
        let ident = handle.display();
        let parsed = APTRepositoryHandle::try_from(&ident).expect("parse");
        assert_eq!(parsed, handle);
    }
    assert_eq!(APTRepositoryHandle::try_from("enterprise").unwrap(), APTRepositoryHandle::Enterprise);
    assert!(APTRepositoryHandle::try_from("does-not-exist").is_err());
    assert_eq!(
        APTRepositoryHandle::try_from("bogus").unwrap_err().message(),
        "unknown repository handle"
    );
}

#[test]
fn handle_paths_and_names() {
    assert_eq!(
        APTRepositoryHandle::Enterprise.path("pbs"),
        "/etc/apt/sources.list.d/pbs-enterprise.list"
    );
    assert_eq!(APTRepositoryHandle::NoSubscription.path("pbs"), "/etc/apt/sources.list");
    assert_eq!(
        APTRepositoryHandle::CephReefTest.path("pve"),
        "/etc/apt/sources.list.d/ceph.list"
    );
    assert_eq!(APTRepositoryHandle::Enterprise.name(), "Enterprise");
    assert_eq!(APTRepositoryHandle::CephQuincyNoSubscription.name(), "Ceph Quincy No-Subscription");
}

#[test]
fn handle_info_prefers_product_uri() {
    let (package_type, uris, component) = APTRepositoryHandle::Enterprise.info("pve");
    assert_eq!(package_type, APTRepositoryPackageType::Deb);
    assert_eq!(
        uris,
        vec![
            "https://enterprise.proxmox.com/debian/pve".to_string(),
            "https://enterprise.proxmox.com/debian".to_string(),
        ]
    );
    assert_eq!(component, "pve-enterprise");
    let (_, uris, component) = APTRepositoryHandle::NoSubscription.info("pbs");
    assert_eq!(uris, vec!["http://download.proxmox.com/debian/pbs".to_string()]);
    assert_eq!(component, "pbs-no-subscription");
    let (_, uris, component) = APTRepositoryHandle::CephReefEnterprise.info("pve");
    assert_eq!(uris, vec!["https://enterprise.proxmox.com/debian/ceph-reef".to_string()]);
    assert_eq!(component, "enterprise");
}

#[test]
fn handle_to_repository_takes_first_uri() {
    let repo = APTRepositoryHandle::Enterprise.to_repository("pve", "bookworm");
    assert_eq!(repo.types, vec![APTRepositoryPackageType::Deb]);
    assert_eq!(repo.uris, vec!["https://enterprise.proxmox.com/debian/pve".to_string()]);
    assert_eq!(repo.suites, vec!["bookworm".to_string()]);
    assert_eq!(repo.components, vec!["pve-enterprise".to_string()]);
    assert!(repo.options.is_empty());
    assert_eq!(repo.comment, "");
    assert_eq!(repo.file_type, APTRepositoryFileType::List);
    assert!(repo.enabled);
}

#[test]
fn standard_repository_from_handle() {
    let repo = APTStandardRepository::from_handle(APTRepositoryHandle::Test);
    assert_eq!(repo.handle, APTRepositoryHandle::Test);
    assert_eq!(repo.status, None);
    assert_eq!(repo.name, "Test");
    assert!(repo.description.contains("test labs"));
}

#[test]
fn resolv_conf_parses_settings() {
    let text = "search example.com\nnameserver 8.8.8.8\nnameserver 1.1.1.1\nnameserver ::1\noptions timeout:2\n";
    let config = read_etc_resolv_conf(text);
    assert_eq!(config.search.as_deref(), Some("example.com"));
    assert_eq!(config.dns1.as_deref(), Some("8.8.8.8"));
    assert_eq!(config.dns2.as_deref(), Some("1.1.1.1"));
    assert_eq!(config.dns3.as_deref(), Some("::1"));
    assert_eq!(config.options.as_deref(), Some("options timeout:2"));
}

#[test]
fn resolv_conf_keeps_first_three_servers() {
    let text = "nameserver 10.0.0.1\nnameserver 10.0.0.2\nnameserver 10.0.0.3\nnameserver 10.0.0.4\n";
    let config = read_etc_resolv_conf(text);
    assert_eq!(config.dns1.as_deref(), Some("10.0.0.1"));
    assert_eq!(config.dns2.as_deref(), Some("10.0.0.2"));
    assert_eq!(config.dns3.as_deref(), Some("10.0.0.3"));
    assert_eq!(config.options, None, "the fourth server line is dropped, not kept");
}

#[test]
fn resolv_conf_rejects_bad_addresses() {
    let config = read_etc_resolv_conf("nameserver 999.1.1.1\ndomain home.lan\n");
    assert_eq!(config.dns1, None);
    assert_eq!(config.search.as_deref(), Some("home.lan"));
    assert_eq!(config.options.as_deref(), Some("nameserver 999.1.1.1"));
}

#[test]
fn update_dns_merges_and_renders() {
    let current = read_etc_resolv_conf("search old.lan\nnameserver 10.0.0.1\nnameserver 10.0.0.2\n# a comment\n");
    let update = ResolvConf {
        search: Some("new.lan".to_string()),
        dns1: None,
        dns2: None,
        dns3: Some("10.0.0.3".to_string()),
        options: None,
    };
    let (merged, text) = update_dns(current, update, Some(vec![DeletableResolvConfProperty::Dns2]));
    assert_eq!(merged.search.as_deref(), Some("new.lan"));
    assert_eq!(merged.dns1.as_deref(), Some("10.0.0.1"));
    assert_eq!(merged.dns2, None, "deleted and not re-set");
    assert_eq!(merged.dns3.as_deref(), Some("10.0.0.3"));
    assert_eq!(
        text,
        "search new.lan\nnameserver 10.0.0.1\nnameserver 10.0.0.3\n# a comment"
    );
}

struct TestConfig;

impl AccessControlConfig for TestConfig {
    fn privileges(&self) -> Vec<(String, u64)> {
        vec![(String::from("Sys.Audit"), 1)]
    }

    fn roles(&self) -> Vec<(String, u64)> {
        vec![(String::from("Admin"), 1)]
    }
}

#[test]
fn access_control_initializes_once() {
    let mut setup: AccessControlSetup<TestConfig> = AccessControlSetup::new();
    setup.init(TestConfig, String::from("/etc/pbs")).expect("first init");
    assert_eq!(setup.acl_config(), "/etc/pbs/acl.cfg");
    assert_eq!(setup.acl_config_lock(), "/etc/pbs/.acl.lck");
    assert_eq!(setup.access_conf().role_no_access(), None);
    assert_eq!(setup.access_conf().role_admin(), None);
    let again = setup.init(TestConfig, String::from("/etc/other"));
    assert!(again.is_err());
    assert_eq!(
        again.unwrap_err().message(),
        "cannot initialize acl tree config twice!"
    );
    assert_eq!(setup.conf_dir(), "/etc/pbs");
}

#[test]
fn contact_addresses_become_mailto_uris() {
    assert_eq!(
        account_contact_from_string("a@example.com b@example.com"),
        vec!["mailto:a@example.com".to_string(), "mailto:b@example.com".to_string()]
    );
    assert_eq!(
        account_contact_from_string("a@x;b@y,c@z"),
        vec!["mailto:a@x".to_string(), "mailto:b@y".to_string(), "mailto:c@z".to_string()]
    );
    assert_eq!(account_contact_from_string(""), vec!["mailto:".to_string()]);
}

#[test]
fn account_listing_keeps_names() {
    let entries = list_accounts(vec![String::from("default"), String::from("staging")]);
    assert_eq!(entries.len(), 2);
    assert_eq!(entries[0].name, "default");
    assert_eq!(entries[1].name, "staging");
}

#[test]
fn test_is_valid_xattr_name() {
    let too_long = "a".repeat(265);

    assert!(!is_valid_xattr_name(&too_long));
    assert!(!is_valid_xattr_name("system.attr"));
    assert!(is_valid_xattr_name("user.attr"));
    assert!(is_valid_xattr_name("trusted.attr"));
    assert!(is_valid_xattr_name(xattr_name_fcaps()));
}

#[test]
fn xattr_classification() {
    assert!(is_security_capability("security.capability"));
    assert!(!is_security_capability("security.NTACL"));
    assert!(is_acl("system.posix_acl_access"));
    assert!(is_acl("system.posix_acl_default"));
    assert!(!is_acl("user.acl"));
    assert!(is_valid_xattr_name("security.NTACL"));
    assert!(!is_valid_xattr_name(""));
}

#[test]
fn xattr_list_yields_terminated_entries() {
    let list = ListXAttr::new(b"user.a\0trusted.b\0tail".to_vec());
    let mut iter = list.entries();
    assert_eq!(iter.next().unwrap(), b"user.a\0".to_vec());
    assert_eq!(iter.next().unwrap(), b"trusted.b\0".to_vec());
    assert_eq!(iter.next(), None, "an unterminated tail is not an entry");
    assert_eq!(iter.next(), None);
}

#[test]
fn buffer_growth_doubles_until_overflow() {
    assert_eq!(grow_buffer_size(256).unwrap(), 512);
    assert_eq!(grow_buffer_size(512).unwrap(), 1024);
    assert_eq!(grow_buffer_size(usize::MAX / 2 + 1).unwrap_err(), 12);
}
