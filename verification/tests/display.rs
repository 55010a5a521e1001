use postal::byte_formatter::format_size;
use postal::colors::PostalColor;
use postal::filter::{parse_port_list, Filter};
use postal::postal_option::PostalOption;
use postal::postal_options::PostalOptions;
use postal::postal_packet::PostalPacket;
use postal::protocol::Protocol;
use postal::store::parse_cache_size;

#[test]
fn format_size_renders_exact_values() {
    assert_eq!(format_size(0), "0 B");
    assert_eq!(format_size(512), "512 B");
    assert_eq!(format_size(1023), "1023 B");
    assert_eq!(format_size(1024), "1 KB");
    assert_eq!(format_size(1536), "1.50 KB");
    assert_eq!(format_size(1105), "1.08 KB");
    assert_eq!(format_size(1024 * 1024), "1 MB");
    assert_eq!(format_size(2359296), "2.25 MB");
    assert_eq!(format_size(1024 * 1024 * 1024), "1 GB");
    assert_eq!(format_size(1024usize * 1024 * 1024 * 1024), "1 TB");
    assert_eq!(format_size(3 * 1024usize * 1024 * 1024 * 1024 / 2), "1.50 TB");
}

#[test]
fn format_size_carries_a_rounded_up_fraction() {
    // 1048575 bytes is 1023.99902… KB: the two-decimal rounding carries.
    assert_eq!(format_size(1048575), "1024.00 KB");
}

#[test]
fn protocol_from_u8_classifies_the_known_numbers() {
    assert!(matches!(Protocol::from_u8(6), Protocol::Tcp));
    assert!(matches!(Protocol::from_u8(17), Protocol::Udp));
    assert!(matches!(Protocol::from_u8(1), Protocol::Icmp));
    assert!(matches!(Protocol::from_u8(0), Protocol::Other));
    assert!(matches!(Protocol::from_u8(255), Protocol::Other));
}

#[test]
fn display_names_match_the_panel_labels() {
    assert_eq!(Protocol::Tcp.as_str(), "TCP");
    assert_eq!(Filter::Https.as_str(), "HTTPS");
    assert_eq!(PostalOption::HttpOnly.as_str(), "HTTP(S) only");
    assert_eq!(PostalOptions::Icmp.as_str(), "ICMP");
}

#[test]
fn default_maps_hold_the_offered_entries() {
    let filters = Filter::as_map();
    assert_eq!(filters.len(), 5);
    assert_eq!(filters[&Filter::Tcp], false);

    let options = PostalOption::as_map();
    assert_eq!(options.len(), 1);
    let (on, text) = options[&PostalOption::HttpOnly];
    assert!(!on);
    assert!(text.contains("HTTP(S)"));

    let combined = PostalOptions::as_map();
    assert_eq!(combined.len(), 6);
    assert_eq!(combined[&PostalOptions::Tcp], true);
    assert_eq!(combined[&PostalOptions::Udp], true);
    assert_eq!(combined[&PostalOptions::Http], false);
}

#[test]
fn port_list_parses_ports_and_skips_the_rest() {
    assert_eq!(parse_port_list("80, 443"), vec![80, 443]);
    assert_eq!(parse_port_list("abc, 99999, 22"), vec![22]);
    assert_eq!(parse_port_list(""), Vec::<u16>::new());
    assert_eq!(parse_port_list("+8080"), vec![8080]);
    assert_eq!(parse_port_list("80,,443,"), vec![80, 443]);
    assert_eq!(parse_port_list(" 65535 "), vec![65535]);
    assert_eq!(parse_port_list("65536"), Vec::<u16>::new());
}

#[test]
fn cache_size_falls_back_to_the_default() {
    assert_eq!(parse_cache_size("200"), 200);
    assert_eq!(parse_cache_size("0"), 0);
    assert_eq!(parse_cache_size("twenty"), 1000);
    assert_eq!(parse_cache_size(""), 1000);
    assert_eq!(parse_cache_size("99999999999999999999999999"), 1000);
}

#[test]
fn placeholder_packet_carries_its_payload() {
    let p = PostalPacket::new(String::from("hello"));
    assert_eq!(p.payload, "hello");
    assert_eq!(p.port, 0);
    assert!(matches!(p.protocol, Protocol::Tcp));
    assert_eq!(p.source_ip, 0x01020304);
    assert_eq!(p.destination_ip, 0x01020304);
    assert_eq!(p.header.timestamp, 0);
}

#[test]
fn palette_colors_hold_their_channels() {
    let c = PostalColor::protocol();
    assert_eq!((c.red, c.green, c.blue), (112, 162, 187));
    assert_eq!(PostalColor::port().green, 198);
    assert_eq!(PostalColor::source().blue, 146);
    assert_eq!(PostalColor::destination().red, 195);
    assert_eq!(PostalColor::direction().blue, 243);
}
