//! The git and IPFS URL rewriting: pure string functions, tested on
//! concrete URLs without any network access.

use gofer::schemes::git::map_git_url_to_raw_url;
use gofer::schemes::ipfs::map_ipfs_url_to_gateway_url;
use gofer::Error;

#[test]
fn url_mapping() {
    // Without the literal `blob` segment after the repository, a GitHub
    // or GitLab URL does not fit the provider's shape.
    assert!(matches!(
        map_git_url_to_raw_url(
            "git://github.com/dryrust/gofer.rs/master/lib/gofer/src/schemes/git.rs"
        ),
        Err(Error::InvalidGitUrl(_))
    ));
    assert!(matches!(
        map_git_url_to_raw_url(
            "git://github.com/dryrust/gofer.rs/f4ea4a585c009aefd570cefcb6062dc5d579c6ab/VERSION"
        ),
        Err(Error::InvalidGitUrl(_))
    ));
    assert!(matches!(
        map_git_url_to_raw_url("git://gitlab.com/rust-lang/rust/master/src/README.md"),
        Err(Error::InvalidGitUrl(_))
    ));
    // With the providers' literal segments in place, the same files map.
    assert_eq!(
        map_git_url_to_raw_url(
            "git://github.com/dryrust/gofer.rs/blob/master/lib/gofer/src/schemes/git.rs"
        )
        .unwrap(),
        "https://raw.githubusercontent.com/dryrust/gofer.rs/refs/heads/master/lib/gofer/src/schemes/git.rs"
    );
    assert_eq!(
        map_git_url_to_raw_url("git://gitlab.com/rust-lang/rust/-/blob/master/src/README.md")
            .unwrap(),
        "https://gitlab.com/rust-lang/rust/-/raw/master/src/README.md"
    );
}

#[test]
fn github_blob_url_maps_to_refs_heads() {
    assert_eq!(
        map_git_url_to_raw_url("git://github.com/o/r/blob/m/p/f").unwrap(),
        "https://raw.githubusercontent.com/o/r/refs/heads/m/p/f"
    );
}

#[test]
fn gitlab_blob_url_maps_to_raw() {
    assert_eq!(
        map_git_url_to_raw_url("git://gitlab.com/o/r/-/blob/m/p").unwrap(),
        "https://gitlab.com/o/r/-/raw/m/p"
    );
}

#[test]
fn unsupported_git_host_is_rejected() {
    assert!(matches!(
        map_git_url_to_raw_url("git://bitbucket.org/o/r/blob/m/p"),
        Err(Error::InvalidGitUrl(_))
    ));
}

#[test]
fn short_git_urls_are_rejected() {
    // Fewer components than the provider's minimum, without indexing
    // past what is there.
    assert!(matches!(
        map_git_url_to_raw_url("git://github.com"),
        Err(Error::InvalidGitUrl(_))
    ));
    assert!(matches!(
        map_git_url_to_raw_url("git://github.com/o/r"),
        Err(Error::InvalidGitUrl(_))
    ));
    assert!(matches!(
        map_git_url_to_raw_url("git://github.com/o/r/blob/m"),
        Err(Error::InvalidGitUrl(_))
    ));
    assert!(matches!(
        map_git_url_to_raw_url("git://gitlab.com/o/r/-/blob/m"),
        Err(Error::InvalidGitUrl(_))
    ));
}

#[test]
fn git_url_without_prefix_is_rejected() {
    assert!(matches!(
        map_git_url_to_raw_url("https://github.com/o/r/blob/m/p"),
        Err(Error::InvalidGitUrl(_))
    ));
}

#[test]
fn git_error_details_name_the_failed_check_and_the_offender() {
    match map_git_url_to_raw_url("https://github.com/o/r/blob/m/p") {
        Err(Error::InvalidGitUrl(detail)) => {
            assert_eq!(detail, "expected a git:// URL: https://github.com/o/r/blob/m/p");
        },
        _ => panic!("expected InvalidGitUrl"),
    }
    match map_git_url_to_raw_url("git://bitbucket.org/o/r/blob/m/p") {
        Err(Error::InvalidGitUrl(detail)) => {
            assert_eq!(detail, "unsupported git host: bitbucket.org");
        },
        _ => panic!("expected InvalidGitUrl"),
    }
    match map_git_url_to_raw_url("git://github.com/o/r/x/m/p") {
        Err(Error::InvalidGitUrl(detail)) => {
            assert_eq!(detail, "expected a blob segment after the repository: git://github.com/o/r/x/m/p");
        },
        _ => panic!("expected InvalidGitUrl"),
    }
}

#[test]
fn ipfs_url_maps_to_gateway() {
    assert_eq!(
        map_ipfs_url_to_gateway_url("ipfs://bafyXYZ").unwrap(),
        "https://ipfs.io/ipfs/bafyXYZ"
    );
}

#[test]
fn ipfs_url_without_prefix_is_rejected() {
    match map_ipfs_url_to_gateway_url("http://ipfs.io/x") {
        Err(Error::InvalidIpfsUrl(original)) => assert_eq!(original, "http://ipfs.io/x"),
        other => panic!("expected InvalidIpfsUrl, got {:?}", other.map(|_| ())),
    }
    assert!(matches!(
        map_ipfs_url_to_gateway_url("ipfs:/bafyXYZ"),
        Err(Error::InvalidIpfsUrl(_))
    ));
}

#[test]
fn splitting_keeps_empty_parts() {
    let parts = gofer::strutil::split_char("a/b//c", '/');
    assert_eq!(parts, vec!["a", "b", "", "c"]);
    assert_eq!(gofer::strutil::split_char("", '/'), vec![""]);
}

#[test]
fn joining_inverts_splitting() {
    let parts = gofer::strutil::split_char("lib/gofer/src", '/');
    assert_eq!(gofer::strutil::join_slash(&parts, 0, parts.len()), "lib/gofer/src");
    assert_eq!(gofer::strutil::join_slash(&parts, 1, parts.len()), "gofer/src");
    assert_eq!(gofer::strutil::join_slash(&parts, 0, 0), "");
}

#[test]
fn mapping_is_pure_across_calls() {
    let a = map_git_url_to_raw_url("git://github.com/o/r/blob/m/p").unwrap();
    let b = map_git_url_to_raw_url("git://github.com/o/r/blob/m/p").unwrap();
    assert_eq!(a, b);
    let c = map_git_url_to_raw_url("git://bitbucket.org/o/r/blob/m/p");
    let d = map_git_url_to_raw_url("git://bitbucket.org/o/r/blob/m/p");
    assert!(matches!(c, Err(Error::InvalidGitUrl(_))));
    assert!(matches!(d, Err(Error::InvalidGitUrl(_))));
    let e = map_ipfs_url_to_gateway_url("ipfs://bafyXYZ").unwrap();
    let f = map_ipfs_url_to_gateway_url("ipfs://bafyXYZ").unwrap();
    assert_eq!(e, f);
}
