use session_index::config::ConfigInner;
use session_index::utils::{bytes_to_pretty_string, u64_to_string};

#[test]
fn decimal_rendering() {
    assert_eq!(u64_to_string(0), "0");
    assert_eq!(u64_to_string(7), "7");
    assert_eq!(u64_to_string(10), "10");
    assert_eq!(u64_to_string(1234567890), "1234567890");
    assert_eq!(u64_to_string(u64::MAX), "18446744073709551615");
}

#[test]
fn whole_bytes_up_to_a_kilobyte() {
    assert_eq!(bytes_to_pretty_string(0), "0 B");
    assert_eq!(bytes_to_pretty_string(1), "1 B");
    assert_eq!(bytes_to_pretty_string(1023), "1023 B");
}

#[test]
fn kilobyte_range_has_two_decimals() {
    assert_eq!(bytes_to_pretty_string(1024), "1.00 KB");
    assert_eq!(bytes_to_pretty_string(1536), "1.50 KB");
    assert_eq!(bytes_to_pretty_string(1075), "1.05 KB");
    assert_eq!(bytes_to_pretty_string(1048575), "1024.00 KB");
}

#[test]
fn larger_units() {
    assert_eq!(bytes_to_pretty_string(1048576), "1.00 MB");
    assert_eq!(bytes_to_pretty_string(10 * 1048576), "10.00 MB");
    assert_eq!(bytes_to_pretty_string(1073741824), "1.00 GB");
    assert_eq!(bytes_to_pretty_string(700 * 1024 * 1024), "700.00 MB");
    assert_eq!(bytes_to_pretty_string(1099511627776), "1.00 TB");
    assert_eq!(bytes_to_pretty_string(3 * 1099511627776 / 2), "1.50 TB");
}

#[test]
fn negative_sizes_fall_to_the_terabyte_arm() {
    assert_eq!(bytes_to_pretty_string(-1), "-0.00 TB");
    assert_eq!(bytes_to_pretty_string(-1099511627776), "-1.00 TB");
}

#[test]
fn default_config_placeholders() {
    let c = ConfigInner::default();
    assert_eq!(c.api_id, 0);
    assert_eq!(c.api_hash, "");
    assert_eq!(c.phone, "");
    assert_eq!(c.session_file_path, "session.bin");
    assert_eq!(c.password, "password");
    assert_eq!(c.server_host, "0.0.0.0");
    assert_eq!(c.server_port, 8080);
    let d = c.clone();
    assert_eq!(d.password, c.password);
    assert_eq!(d.server_port, c.server_port);
    assert!(d == c);
    let mut e = c.clone();
    e.server_port = 8081;
    assert!(e != c);
}
