use iri_string::charclass::Policy;
use iri_string::validate::{conv_err, parse_whole, Production};
use iri_string::{absolute_iri, fragment, iri, iri_reference, path, relative_ref, Error};

#[test]
fn iri_with_query_and_fragment() {
    assert_eq!(iri("https://example.com/path?q=1#frag"), Ok(()));
}

#[test]
fn iri_with_spaces_is_rejected() {
    assert_eq!(iri("not a uri"), Err(Error::new()));
}

#[test]
fn network_path_reference() {
    assert_eq!(iri_reference("//example.com/resource"), Ok(()));
}

#[test]
fn relative_ref_rejects_scheme() {
    assert_eq!(relative_ref("https://example.com/"), Err(Error::new()));
}

#[test]
fn fragment_with_percent_encoding() {
    assert_eq!(fragment("sec%C3%A9tion-1"), Ok(()));
}

#[test]
fn paths_with_and_without_empty_segments() {
    assert_eq!(path("/a/b/c"), Ok(()));
    assert_eq!(path("/a//b"), Ok(()));
}

#[test]
fn prefix_match_is_not_a_success() {
    assert!(iri("http://x").is_ok());
    assert!(iri("http://x garbage").is_err());
    assert!(fragment("abc").is_ok());
    assert!(fragment("abc#").is_err());
}

#[test]
fn repeated_calls_agree() {
    for s in ["https://example.com/", "not a uri", "", "a:b", "//h"] {
        assert_eq!(iri(s), iri(s));
        assert_eq!(iri_reference(s), iri_reference(s));
        assert_eq!(absolute_iri(s), absolute_iri(s));
        assert_eq!(relative_ref(s), relative_ref(s));
        assert_eq!(path(s), path(s));
        assert_eq!(fragment(s), fragment(s));
    }
}

#[test]
fn production_containment_on_samples() {
    for s in [
        "https://example.com/path?q=1",
        "urn:isbn:0451450523",
        "mailto:a@b.example",
        "file:///etc/hosts",
        "x:",
    ] {
        assert!(absolute_iri(s).is_ok(), "{}", s);
        assert!(iri(s).is_ok(), "{}", s);
        assert!(iri_reference(s).is_ok(), "{}", s);
    }
    assert!(absolute_iri("https://example.com/#f").is_err());
    assert!(iri("https://example.com/#f").is_ok());
    assert!(iri("../a").is_err());
    assert!(iri_reference("../a").is_ok());
}

#[test]
fn empty_input() {
    assert!(iri("").is_err());
    assert!(absolute_iri("").is_err());
    assert!(iri_reference("").is_ok());
    assert!(relative_ref("").is_ok());
    assert!(path("").is_ok());
    assert!(fragment("").is_ok());
}

#[test]
fn scheme_rules() {
    assert!(iri("a+b-c.d:x").is_ok());
    assert!(iri("1a:x").is_err());
    assert!(iri(":x").is_err());
    assert!(iri("a_b:x").is_err());
}

#[test]
fn unicode_is_admitted_under_iri_policy() {
    assert!(iri("http://例え.テスト/パス?質問#断片").is_ok());
    assert!(fragment("séction").is_ok());
    assert_eq!(
        parse_whole(Policy::Uri, Production::Fragment, "séction"),
        Err(())
    );
    assert_eq!(
        parse_whole(Policy::Uri, Production::Fragment, "sec%C3%A9tion"),
        Ok(())
    );
}

#[test]
fn private_use_only_in_query() {
    assert!(iri("http://h/?\u{E000}").is_ok());
    assert!(iri("http://h/\u{E000}").is_err());
    assert!(iri("http://h/#\u{E000}").is_err());
    assert!(parse_whole(Policy::Uri, Production::Iri, "http://h/?\u{E000}").is_err());
}

#[test]
fn percent_encoding_rules() {
    assert!(path("/a%2Fb").is_ok());
    assert!(path("/a%2").is_err());
    assert!(path("/a%zz").is_err());
    assert!(fragment("%").is_err());
}

#[test]
fn authority_forms() {
    assert!(iri("http://user:pw@host:8080/p").is_ok());
    assert!(iri("http://host:/p").is_ok());
    assert!(iri("http://host:80a/p").is_err());
    assert!(iri("http://a@b@c/").is_err());
    assert!(iri("http://192.168.0.1/").is_ok());
    assert!(iri("http://[v1.fe]/").is_ok());
    assert!(iri("http://[V1F.a:b]/").is_ok());
    assert!(iri("http://[v.x]/").is_err());
    assert!(iri("http://[::1]:443/").is_ok());
    assert!(iri("http://[::1/").is_err());
    assert!(iri("http://[example]/").is_err());
}

#[test]
fn ipv6_literals() {
    let ok = [
        "[1:2:3:4:5:6:7:8]",
        "[::]",
        "[::1]",
        "[1::]",
        "[1:2:3:4:5:6:7::]",
        "[::2:3:4:5:6:7:8]",
        "[1:2:3:4:5:6:1.2.3.4]",
        "[::ffff:192.0.2.1]",
        "[fe80::1:2]",
    ];
    for h in ok {
        let s = format!("http://{}/", h);
        assert!(iri(&s).is_ok(), "{}", h);
    }
    let bad = [
        "[1:2:3:4:5:6:7]",
        "[1:2:3:4:5:6:7:8:9]",
        "[1::2::3]",
        "[:::]",
        "[1:2:3:4:5:6:7:8::]",
        "[12345::]",
        "[1.2.3.4::]",
        "[::1.2.3.256]",
        "[1:2:3:4:5:6:7:1.2.3.4]",
        "[]",
    ];
    for h in bad {
        let s = format!("http://{}/", h);
        assert!(iri(&s).is_err(), "{}", h);
    }
}

#[test]
fn dec_octet_in_ipv6() {
    assert!(iri("http://[::1.2.3.04]/").is_err());
    assert!(iri("http://[::255.249.199.0]/").is_ok());
}

#[test]
fn relative_path_forms() {
    assert!(relative_ref("a/b:c").is_ok());
    assert!(relative_ref("a:b").is_err());
    assert!(relative_ref("/a:b").is_ok());
    assert!(relative_ref("?q").is_ok());
    assert!(relative_ref("#f").is_ok());
    assert!(relative_ref("//h?q#f").is_ok());
}

#[test]
fn hier_part_forms() {
    assert!(iri("a:/").is_ok());
    assert!(iri("a:/b").is_ok());
    assert!(iri("a:b/c").is_ok());
    assert!(iri("a:?q").is_ok());
    assert!(iri("a:////").is_ok());
    assert!(iri("a://h:1:2/").is_err());
}

#[test]
fn path_standing_alone() {
    assert!(path("a:b").is_ok());
    assert!(path("//a").is_ok());
    assert!(path("a?b").is_err());
    assert!(path("a#b").is_err());
}

#[test]
fn fragment_standing_alone() {
    assert!(fragment("a/b?c:d@e").is_ok());
    assert!(fragment("#").is_err());
    assert!(fragment(" ").is_err());
}

#[test]
fn error_message_and_equality() {
    assert_eq!(Error::new().message(), "Invalid IRI");
    assert_eq!(iri("::"), iri_reference("a b"));
}

#[test]
fn conv_err_discards_payloads() {
    assert_eq!(conv_err::<u8, ()>(Ok(3)), Ok(()));
    assert_eq!(conv_err::<(), &str>(Err("detail")), Err(Error::new()));
}

#[test]
fn ascii_policy_results_carry_over_to_iri_policy() {
    let all = [
        Production::Iri,
        Production::IriReference,
        Production::AbsoluteIri,
        Production::RelativeRef,
        Production::Path,
        Production::Fragment,
    ];
    for s in ["http://a/b?c#d", "a/b", "/x", "?q", "f%20g", "//h:1", "v:x:y"] {
        for g in all {
            if parse_whole(Policy::Uri, g, s).is_ok() {
                assert!(parse_whole(Policy::Iri, g, s).is_ok(), "{:?} {}", g, s);
            }
        }
    }
    assert!(parse_whole(Policy::Uri, Production::Iri, "http://a/b?c#d").is_ok());
    assert!(parse_whole(Policy::Uri, Production::Iri, "http://ä/").is_err());
    assert!(parse_whole(Policy::Iri, Production::Iri, "http://ä/").is_ok());
}
