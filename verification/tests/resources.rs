use image_security::error::ConfigError;
use image_security::select::pick_longest;
use image_security::snapshots::occlum::unionfs::{create_environment, occlum_libraries, Unionfs};
use image_security::text::{
    chars_eq, find_char, replace_leading, starts_with, starts_with_then, str_eq, to_chars,
};
use image_security::validate::{find_separator, resource_request, ResourceDescription};

#[test]
fn resource_description_has_no_options() {
    let d = ResourceDescription::new("Policy");
    assert_eq!(d.name, "Policy");
    assert!(d.optional.is_empty());
}

#[test]
fn broker_parameters_split_at_the_first_separator() {
    let r = resource_request("GPG Keyring", "eaa_kbc::10.0.0.1:1234").unwrap();
    assert_eq!(r.kbc_name, "eaa_kbc");
    assert_eq!(r.kbs_uri, "10.0.0.1:1234");
    assert_eq!(r.resource, ResourceDescription::new("GPG Keyring"));
    let r = resource_request("Policy", "a::b::c").unwrap();
    assert_eq!(r.kbc_name, "a");
    assert_eq!(r.kbs_uri, "b::c");
    let r = resource_request("Policy", "null_kbc::null").unwrap();
    assert_eq!((r.kbc_name.as_str(), r.kbs_uri.as_str()), ("null_kbc", "null"));
}

#[test]
fn broker_parameters_need_both_parts() {
    assert_eq!(resource_request("Policy", "eaa_kbc"), Err(ConfigError::BrokerPairNotFound));
    assert_eq!(resource_request("Policy", "a:b"), Err(ConfigError::BrokerPairNotFound));
    assert_eq!(resource_request("Policy", ""), Err(ConfigError::BrokerPairNotFound));
    assert_eq!(resource_request("Policy", "::uri"), Err(ConfigError::MissingBrokerName));
    assert_eq!(resource_request("Policy", "::"), Err(ConfigError::MissingBrokerName));
    assert_eq!(resource_request("Policy", "name::"), Err(ConfigError::MissingBrokerUri));
    assert_eq!(find_separator(&to_chars("a:::b")), Some(1));
}

#[test]
fn text_helpers_agree_with_std() {
    let hay = to_chars("registry.io/ns/app");
    assert_eq!(hay.len(), 18);
    assert!(starts_with(&hay, &to_chars("registry.io")));
    assert!(starts_with(&hay, &to_chars("")));
    assert!(!starts_with(&hay, &to_chars("registry.io/ns/app/more")));
    assert!(starts_with_then(&hay, &to_chars("registry.io"), '/'));
    assert!(!starts_with_then(&hay, &to_chars("registry.i"), '/'));
    assert!(!starts_with_then(&hay, &hay, '/'));
    assert_eq!(find_char(&hay, '/'), Some(11));
    assert_eq!(find_char(&hay, '@'), None);
    assert!(chars_eq(&hay, &to_chars("registry.io/ns/app")));
    assert!(!chars_eq(&hay, &to_chars("registry.io/ns/apq")));
    assert!(str_eq("a", "a"));
    assert!(!str_eq("a", "ab"));
    assert_eq!(replace_leading("mirror/app", "mirror", "origin"), "origin/app");
    assert_eq!(replace_leading("mirror/app", "other", "origin"), "mirror/app");
    assert_eq!(replace_leading("héllo", "hé", "HE"), "HEllo");
}

#[test]
fn longest_candidate_is_picked_first_one_on_a_tie() {
    assert_eq!(pick_longest(&vec![]), None);
    assert_eq!(pick_longest(&vec![None, None]), None);
    assert_eq!(pick_longest(&vec![Some(1), None, Some(3), Some(2)]), Some(2));
    assert_eq!(pick_longest(&vec![None, Some(4), Some(4)]), Some(1));
    assert_eq!(pick_longest(&vec![Some(0)]), Some(0));
}

#[test]
fn layers_are_copied_last_one_first() {
    let fs = Unionfs { data_dir: "/var/lib/image-rs".to_string(), index: 0 };
    let layers = vec!["/l/1".to_string(), "/l/2".to_string(), "/l/3".to_string()];
    let plan = fs.mount(&layers, "/run/c1/rootfs", "c1");
    assert_eq!(plan.layers, vec!["/l/3".to_string(), "/l/2".to_string(), "/l/1".to_string()]);
    assert_eq!(
        plan.options,
        "lowerdir=/images/c1/sefs/lower,upperdir=/images/c1/sefs/upper,key=c7-32-b3-ed-44-df-ec-7b-25-2d-9a-32-38-8d-58-61"
    );
    assert_eq!(plan.mount_point.fs_type, "unionfs");
    assert_eq!(plan.mount_point.mount_path, "/run/c1/rootfs");
    assert_eq!(plan.mount_point.work_dir, "/var/lib/image-rs");
    assert_eq!(fs.unmount(&plan.mount_point), "/run/c1/rootfs");
    assert!(fs.mount(&vec![], "/m", "c").layers.is_empty());
}

#[test]
fn root_file_system_gets_its_directories_and_libraries() {
    assert_eq!(
        create_environment("/m"),
        vec!["/m/dev", "/m/etc", "/m/host", "/m/lib", "/m/proc", "/m/root", "/m/sys", "/m/tmp"]
    );
    assert_eq!(
        occlum_libraries(),
        vec![
            "/opt/occlum/glibc/lib/libc.so.6",
            "/opt/occlum/glibc/lib/libdl.so.2",
            "/opt/occlum/glibc/lib/libm.so.6",
            "/opt/occlum/glibc/lib/libpthread.so.0",
            "/opt/occlum/glibc/lib/libresolv.so.2",
            "/opt/occlum/glibc/lib/librt.so.1",
        ]
    );
}
