use mihomoctl::list::{ListState, SearchText};
use mihomoctl::model::{Rule, RuleType};
use mihomoctl::netaddr::{ip_address, ip_in_cidr};

fn rule(rule_type: RuleType, payload: &str) -> Rule {
    Rule {
        rule_type,
        payload: payload.to_owned(),
        proxy: "PROXY".to_owned(),
    }
}

fn chars(s: &str) -> Vec<char> {
    s.chars().collect()
}

#[test]
fn ip_query_matches_containing_cidr_rule() {
    let rule = rule(RuleType::IPCIDR, "192.168.0.0/16");
    assert!(rule.matches_query("192.168.1.5"));
    assert!(!rule.matches_query("192.169.1.5"));
}

#[test]
fn ip_query_matches_src_ipcidr_and_ipv6() {
    assert!(rule(RuleType::SrcIPCIDR, "10.0.0.0/8").matches_query("10.20.30.40"));
    assert!(rule(RuleType::IPCIDR, "2001:db8::/32").matches_query("2001:db8::1"));
    assert!(!rule(RuleType::IPCIDR, "2001:db8::/32").matches_query("2001:db9::1"));
}

#[test]
fn substring_match_still_works_for_domains() {
    let rule = rule(RuleType::DomainSuffix, "google.com");
    assert!(rule.matches_query("google"));
    assert!(!rule.matches_query("192.168.1.1"));
}

#[test]
fn containment_does_not_apply_to_non_ip_rule_types() {
    assert!(!rule(RuleType::GeoIP, "CN").matches_query("1.2.3.4"));
}

#[test]
fn query_never_hits_the_rule_type_or_the_proxy() {
    let r = rule(RuleType::DomainKeyword, "ads");
    assert!(!r.matches_query("domainkeyword"));
    assert!(!r.matches_query("proxy"));
    assert!(r.matches_query("ad"));
}

#[test]
fn payload_is_lower_cased_before_matching() {
    assert!(rule(RuleType::Domain, "Example.COM").matches_query("example.com"));
    assert!(rule(RuleType::Domain, "Example.COM").is_hit("ple.c"));
}

#[test]
fn network_without_prefix_is_a_host_match() {
    let host = rule(RuleType::IPCIDR, "10.1.2.3");
    assert!(host.matches_query("10.1.2.3"));
    assert!(!host.matches_query("10.1.2.4"));
}

#[test]
fn prefix_longer_than_the_address_matches_nothing() {
    assert!(!rule(RuleType::IPCIDR, "10.0.0.0/33").matches_query("10.0.0.1"));
    assert!(!rule(RuleType::IPCIDR, "::/129").matches_query("::1"));
}

#[test]
fn unreadable_prefix_counts_as_full_length() {
    // "300" does not fit in a byte, so it reads as no prefix at all.
    let r = rule(RuleType::IPCIDR, "10.0.0.1/300");
    assert!(r.matches_query("10.0.0.1"));
    assert!(!r.matches_query("10.0.0.2"));
    assert!(rule(RuleType::IPCIDR, "10.0.0.1/x").matches_query("10.0.0.1"));
}

#[test]
fn prefix_and_network_are_trimmed() {
    assert!(rule(RuleType::IPCIDR, " 172.16.0.0 / 12 ").matches_query("172.31.255.255"));
    assert!(!rule(RuleType::IPCIDR, " 172.16.0.0 / 12 ").matches_query("172.32.0.0"));
    assert!(rule(RuleType::IPCIDR, "172.16.0.0/+12").matches_query("172.20.0.1"));
}

#[test]
fn prefix_zero_holds_every_address_of_the_family_only() {
    let any4 = rule(RuleType::IPCIDR, "0.0.0.0/0");
    assert!(any4.matches_query("255.255.255.255"));
    assert!(!any4.matches_query("::1"));
    let any6 = rule(RuleType::SrcIPCIDR, "::/0");
    assert!(any6.matches_query("fe80::1"));
    assert!(!any6.matches_query("1.2.3.4"));
}

#[test]
fn prefix_cuts_inside_a_part() {
    let r = rule(RuleType::IPCIDR, "192.168.4.0/22");
    assert!(r.matches_query("192.168.7.255"));
    assert!(!r.matches_query("192.168.8.0"));
    let r6 = rule(RuleType::IPCIDR, "2001:db8:abc0::/44");
    assert!(r6.matches_query("2001:db8:abcf:ffff::1"));
    assert!(!r6.matches_query("2001:db8:abd0::1"));
}

#[test]
fn unreadable_network_matches_no_address() {
    assert!(!rule(RuleType::IPCIDR, "not-a-network/8").matches_query("10.0.0.1"));
    assert!(!rule(RuleType::IPCIDR, "10.0.0/8").matches_query("10.0.0.1"));
}

#[test]
fn dotted_addresses_read_as_std_reads_them() {
    assert_eq!(ip_address(&chars("1.2.3.4")), Some((false, vec![1, 2, 3, 4])));
    assert_eq!(ip_address(&chars("255.255.255.255")), Some((false, vec![255, 255, 255, 255])));
    assert_eq!(ip_address(&chars("256.1.1.1")), None);
    assert_eq!(ip_address(&chars("01.2.3.4")), None);
    assert_eq!(ip_address(&chars("1.2.3")), None);
    assert_eq!(ip_address(&chars("1.2.3.4.5")), None);
    assert_eq!(ip_address(&chars("")), None);
}

#[test]
fn colon_addresses_read_as_std_reads_them() {
    assert_eq!(ip_address(&chars("::")), Some((true, vec![0; 8])));
    assert_eq!(ip_address(&chars("::1")), Some((true, vec![0, 0, 0, 0, 0, 0, 0, 1])));
    assert_eq!(
        ip_address(&chars("2001:DB8::ff00:42:8329")),
        Some((true, vec![0x2001, 0xdb8, 0, 0, 0, 0xff00, 0x42, 0x8329]))
    );
    assert_eq!(
        ip_address(&chars("::ffff:192.0.2.1")),
        Some((true, vec![0, 0, 0, 0, 0, 0xffff, 0xc000, 0x0201]))
    );
    assert_eq!(
        ip_address(&chars("1:2:3:4:5:6:7:8")),
        Some((true, vec![1, 2, 3, 4, 5, 6, 7, 8]))
    );
    assert_eq!(ip_address(&chars("1:2:3:4:5:6:7:8:9")), None);
    assert_eq!(ip_address(&chars("1::2::3")), None);
    assert_eq!(ip_address(&chars("1:2:3:4:5:6:7::8")), None);
    assert_eq!(ip_address(&chars("12345::")), None);
    assert_eq!(ip_address(&chars("1.2.3.4::")), None);
}

#[test]
fn ip_in_cidr_compares_leading_bits() {
    assert!(ip_in_cidr(false, &vec![10, 128, 0, 1], "10.128.0.0/9"));
    assert!(!ip_in_cidr(false, &vec![10, 127, 0, 1], "10.128.0.0/9"));
    assert!(!ip_in_cidr(true, &vec![0, 0, 0, 0, 0, 0, 0, 1], "0.0.0.0/0"));
}

#[test]
fn rule_type_names_round_trip() {
    for t in [
        RuleType::Domain,
        RuleType::DomainSuffix,
        RuleType::DomainKeyword,
        RuleType::GeoIP,
        RuleType::IPCIDR,
        RuleType::SrcIPCIDR,
        RuleType::SrcPort,
        RuleType::DstPort,
        RuleType::Process,
        RuleType::Match,
        RuleType::Direct,
        RuleType::Reject,
        RuleType::Unknown,
    ] {
        assert_eq!(RuleType::from_name(t.name()), t);
    }
    assert_eq!(RuleType::from_name("RuleSet"), RuleType::Unknown);
    assert_eq!(RuleType::IPCIDR.name(), "IPCIDR");
}

#[test]
fn rules_page_search_uses_network_containment() {
    let mut list: ListState<Rule> = ListState::new(vec![
        rule(RuleType::DomainSuffix, "example.com"),
        rule(RuleType::IPCIDR, "10.0.0.0/8"),
        rule(RuleType::IPCIDR, "192.168.0.0/16"),
    ]);
    list.begin_search();
    for c in "10.1.1.1".chars() {
        list.input_search_char(c);
    }
    assert_eq!(list.filtered_indices, Some(vec![1]));
}

#[test]
fn mode_names_read_in_any_case() {
    use_mode_names();
}

fn use_mode_names() {
    assert_eq!(mihomoctl::model::Mode::from_name("Global"), mihomoctl::model::Mode::Global);
    assert_eq!(mihomoctl::model::Mode::from_name("DIRECT"), mihomoctl::model::Mode::Direct);
    assert_eq!(mihomoctl::model::Mode::from_name("rule"), mihomoctl::model::Mode::Rule);
    assert_eq!(mihomoctl::model::Mode::from_name("script"), mihomoctl::model::Mode::Rule);
    assert_eq!(mihomoctl::model::Mode::Global.name(), "global");
}
