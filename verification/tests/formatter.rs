use sruc::formatter::discord_table::{DiscordTable, DiscordTableColumn};
use sruc::formatter::discord_timestamp::{DiscordTimestamp, DiscordTimestampDisplay};
use sruc::formatter::duration::Duration;
use sruc::formatter::string_formatter::{
    align, center_align, i64_to_string, left_align, right_align, u32_to_string, u64_to_string,
    StringAlignment,
};

#[test]
fn decimal_rendering() {
    assert_eq!(u64_to_string(0), "0");
    assert_eq!(u64_to_string(1_234_567_890), "1234567890");
    assert_eq!(u64_to_string(u64::MAX), "18446744073709551615");
    assert_eq!(u32_to_string(42), "42");
    assert_eq!(i64_to_string(-42), "-42");
    assert_eq!(i64_to_string(0), "0");
    assert_eq!(i64_to_string(i64::MIN), "-9223372036854775808");
}

#[test]
fn duration_components() {
    let d = Duration::new(90_061);
    assert_eq!(d.calc_days(), 1);
    assert_eq!(d.calc_hours(), 1);
    assert_eq!(d.calc_minutes(), 1);
}

#[test]
fn duration_format_suppresses_zero_parts() {
    assert_eq!(Duration::new(93_784).format(), "1d2h3m");
    assert_eq!(Duration::new(7_380).format(), "2h3m");
    assert_eq!(Duration::new(240).format(), "4m");
    assert_eq!(Duration::new(0).format(), "0m");
}

#[test]
fn duration_format_negative() {
    assert_eq!(Duration::new(-3_900).format(), "-5m");
}

#[test]
fn duration_format_too_long() {
    assert_eq!(Duration::new(100 * 86_400).format_too_long(), "Too long");
    assert_eq!(Duration::new(99 * 86_400).format_too_long(), "99d0m");
}

#[test]
fn alignment_pads_to_width() {
    assert_eq!(left_align("ab", 5), "ab   ");
    assert_eq!(right_align("ab", 5), "   ab");
    assert_eq!(center_align("ab", 5), " ab  ");
    assert_eq!(center_align("abcdef", 3), "abcdef");
    assert_eq!(align("ab", 5, StringAlignment::Left), "ab   ");
    assert_eq!(align("ab", 5, StringAlignment::Right), "   ab");
    assert_eq!(align("ab", 5, StringAlignment::Centered), " ab  ");
    assert_eq!(align("ab", 5, StringAlignment::Unaligned), "ab");
}

#[test]
fn timestamp_markup() {
    let t = DiscordTimestamp::new(1_700_000_000);
    assert_eq!(t.display(DiscordTimestampDisplay::Relative), "<t:1700000000:R>");
    assert_eq!(t.display(DiscordTimestampDisplay::FullDateTime), "<t:1700000000:f>");
    let neg = DiscordTimestamp::new(-5);
    assert_eq!(neg.display(DiscordTimestampDisplay::ShortDate), "<t:-5:d>");
}

#[test]
fn timestamp_from_secs_remaining() {
    let t = DiscordTimestamp::new_from_secs_remaining(120, 1_000);
    assert_eq!(t.time, 1_120);
}

#[test]
fn table_header_and_body() {
    let mut table = DiscordTable::new();
    table.add_column(DiscordTableColumn::new("L", 3, StringAlignment::Left));
    table.add_column(DiscordTableColumn::new("R", 3, StringAlignment::Right));
    let rows = vec![
        vec!["a".to_string(), "b".to_string()],
        vec!["cc".to_string()],
    ];
    table.add_data_rows(&rows);
    assert_eq!(table.get_table_header(), "`L  |  R`\n");
    assert_eq!(table.get_table_body(), "a  |  b\ncc |   \n");
    assert_eq!(table.columns().len(), 2);
    assert_eq!(table.data_rows().len(), 2);
}
