use runtime::upgrade::{
    archive_ext, compare_versions, download_url, get_os, latest_release_url, os_for_windows_version,
    parse_version_parts, release_arch, version_from_tag,
};
use std::cmp::Ordering;

#[test]
fn versions_compare_by_numeric_parts() {
    assert_eq!(compare_versions("1.2.3", "1.2.4"), Ordering::Less);
    assert_eq!(compare_versions("1.10.0", "1.9.9"), Ordering::Greater);
    assert_eq!(compare_versions("1.2", "1.2.0"), Ordering::Less);
    assert_eq!(compare_versions("1.2.3", "1.2.3"), Ordering::Equal);
    assert_eq!(compare_versions("1.x.3", "1.3"), Ordering::Equal);
    assert_eq!(compare_versions("", ""), Ordering::Equal);
    assert_eq!(compare_versions("2", "10"), Ordering::Less);
}

#[test]
fn version_parts_skip_non_numbers() {
    assert_eq!(parse_version_parts("1.2.3"), vec![1, 2, 3]);
    assert_eq!(parse_version_parts("1..b.4294967296.7"), vec![1, 7]);
    assert_eq!(parse_version_parts(""), Vec::<u32>::new());
    assert_eq!(parse_version_parts("+5.06"), vec![5, 6]);
}

#[test]
fn tags_and_platforms() {
    assert_eq!(version_from_tag("v1.2.3"), "1.2.3");
    assert_eq!(version_from_tag("vv2"), "2");
    assert_eq!(version_from_tag("1.0"), "1.0");
    assert_eq!(os_for_windows_version("windows", (10, 0, 0, 19045)), "windows");
    assert_eq!(os_for_windows_version("windows", (6, 1, 0, 7601)), "windows7");
    assert_eq!(os_for_windows_version("windows", (6, 3, 0, 9600)), "windows7");
    assert_eq!(os_for_windows_version("windows", (5, 1, 0, 2600)), "windowsxp");
    assert_eq!(os_for_windows_version("windows", (5, 0, 0, 2195)), "windows");
    assert_eq!(get_os("linux", false, (0, 0, 0, 0)), "linux");
    assert_eq!(get_os("windows", true, (6, 1, 0, 7600)), "windows7");
    assert_eq!(release_arch("x86"), "i686");
    assert_eq!(release_arch("x86_64"), "x86_64");
    assert_eq!(archive_ext("windows"), "zip");
    assert_eq!(archive_ext("linux"), "tar.gz");
    assert_eq!(
        download_url("cari-404", "ABS", "1.2.3", "windows7", "i686", "zip"),
        "https://github.com/cari-404/ABS/releases/download/v1.2.3/ABS_windows7-i686-v1.2.3.zip"
    );
    assert_eq!(latest_release_url("o", "r"), "https://api.github.com/repos/o/r/releases/latest");
}
