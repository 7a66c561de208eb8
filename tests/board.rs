use rustsbi_hpm::board::{
    divided_frequency, group_link, ip_cmd_poll, uart_divisor, IpCmdPoll, IP_CMD_RETRIES,
};
use rustsbi_hpm::timer::{high_word, low_word};

#[test]
fn group_link_splits_resource_number() {
    assert_eq!(group_link(257), (0, 1 << 1));
    assert_eq!(group_link(256 + 32 + 5), (1, 1 << 5));
    assert_eq!(group_link(256 + 31), (0, 1 << 31));
}

#[test]
fn divided_frequency_counts_divider_plus_one() {
    assert_eq!(divided_frequency(24_000_000, 0), 24_000_000);
    assert_eq!(divided_frequency(576_000_000, 1), 288_000_000);
    assert_eq!(divided_frequency(100, 2), 33);
}

#[test]
fn uart_divisor_for_console_baud_rate() {
    // 24 MHz / (115200 * 16) = 13
    assert_eq!(uart_divisor(115_200, 24_000_000), (13, 0));
    // 80 MHz / (1200 * 16) = 4166 = 0x1046
    assert_eq!(uart_divisor(1_200, 80_000_000), (0x46, 0x10));
}

#[test]
fn ip_command_wait_decisions() {
    assert_eq!(ip_cmd_poll(IP_CMD_RETRIES, false, false), IpCmdPoll::Again(IP_CMD_RETRIES - 1));
    assert_eq!(ip_cmd_poll(10, true, false), IpCmdPoll::Done { error: false });
    assert_eq!(ip_cmd_poll(10, false, true), IpCmdPoll::Done { error: true });
    assert_eq!(ip_cmd_poll(10, true, true), IpCmdPoll::Done { error: true });
    assert_eq!(ip_cmd_poll(1, false, false), IpCmdPoll::Timeout);
    assert_eq!(ip_cmd_poll(1, true, false), IpCmdPoll::Timeout);
}

#[test]
fn timer_value_halves() {
    let v = 0x0123_4567_89ab_cdef_u64;
    assert_eq!(low_word(v), 0x89ab_cdef);
    assert_eq!(high_word(v), 0x0123_4567);
}
