use ybm::settings::{Account, Algorithm, TermColor, Theme};
use ybm::tui::{
    build_frame, code_blink, code_color, gauge_color, max_label_width, should_quit, Blink,
    KeyPress,
};

const RFC_SECRET_B32: &str = "GEZDGNBVGY3TQOJQGEZDGNBVGY3TQOJQ";

fn named_account(name: &str, length: u32, code: &str) -> (String, Account) {
    (
        name.to_string(),
        Account {
            secret: (RFC_SECRET_B32.to_string(), b"12345678901234567890".to_vec()),
            algorithm: Algorithm::Sha1,
            length,
            code: code.to_string(),
        },
    )
}

#[test]
fn urgency_tiers_for_the_code() {
    // 300 ms make one percent of the epoch: 4.9 % remaining is 1470 ms.
    assert_eq!(code_color(1470, TermColor::White), TermColor::Red);
    // 9.9 % remaining.
    assert_eq!(code_color(2970, TermColor::White), TermColor::LightRed);
    // 19.9 % remaining.
    assert_eq!(code_color(5970, TermColor::White), TermColor::Yellow);
    // 20.0 % exactly falls back to the theme's code color.
    assert_eq!(code_color(6000, TermColor::White), TermColor::White);
}

#[test]
fn urgency_tiers_for_the_gauge() {
    assert_eq!(gauge_color(1470), TermColor::Red);
    assert_eq!(gauge_color(2970), TermColor::LightRed);
    assert_eq!(gauge_color(5970), TermColor::Yellow);
    // The calm tier of the gauge is green, not the theme color.
    assert_eq!(gauge_color(6000), TermColor::Green);
}

#[test]
fn urgency_tiers_for_the_blink() {
    assert_eq!(code_blink(1470), Blink::Rapid);
    assert_eq!(code_blink(2970), Blink::Rapid);
    assert_eq!(code_blink(5970), Blink::Slow);
    assert_eq!(code_blink(6000), Blink::Hidden);
}

#[test]
fn percent_remaining_falls_as_the_epoch_runs() {
    let remaining: Vec<u64> = [0u64, 1500, 15000, 29999]
        .iter()
        .map(|elapsed| 30_000 - elapsed)
        .collect();
    for pair in remaining.windows(2) {
        assert!(pair[1] < pair[0]);
        assert!(pair[1] > 0);
        assert!(pair[0] <= 30_000);
    }
}

#[test]
fn widest_label_wins() {
    let accounts = vec![
        named_account("email", 6, ""),
        named_account("bank", 8, ""),
    ];
    // "email" + 6 digits = 11; "bank" + 8 digits = 12.
    assert_eq!(max_label_width(&accounts), 12);
}

#[test]
fn no_accounts_no_width() {
    let accounts: Vec<(String, Account)> = Vec::new();
    assert_eq!(max_label_width(&accounts), 0);
}

#[test]
fn frame_rows_are_styled_and_aligned() {
    let accounts = vec![named_account("email", 6, "287082")];
    let theme = Theme::default();
    let frame = build_frame(&accounts, &theme, 6000, 12, 10);
    assert_eq!(frame.rows.len(), 1);
    assert_eq!(frame.rows[0].name_text, "EMAIL");
    assert_eq!(frame.rows[0].name_color, TermColor::Blue);
    // Widest label is 12, this one is 11: one space of alignment plus one.
    assert_eq!(frame.rows[0].gap, 2);
    assert_eq!(frame.rows[0].code_text, "287082");
    assert_eq!(frame.rows[0].code_color, TermColor::White);
    assert_eq!(frame.rows[0].code_blink, Blink::Hidden);
    assert_eq!(frame.gauge_color, TermColor::Green);
    assert_eq!(frame.remaining_ms, 6000);
}

#[test]
fn frame_centers_the_account_list() {
    let accounts = vec![named_account("email", 6, "287082")];
    let theme = Theme::default();
    // Ten panel rows, one account: the upper half leaves four blank rows.
    let frame = build_frame(&accounts, &theme, 1470, 11, 10);
    assert_eq!(frame.top_padding, 4);
    assert_eq!(frame.rows[0].code_color, TermColor::Red);
    assert_eq!(frame.gauge_color, TermColor::Red);
}

#[test]
fn small_panels_get_no_padding() {
    let accounts = vec![named_account("email", 6, "287082")];
    let theme = Theme::default();
    assert_eq!(build_frame(&accounts, &theme, 6000, 11, 2).top_padding, 0);
    assert_eq!(build_frame(&accounts, &theme, 6000, 11, 3).top_padding, 0);
}

#[test]
fn quit_keys_end_the_viewer() {
    assert!(should_quit(&KeyPress::Char('q')));
    assert!(should_quit(&KeyPress::Esc));
    assert!(!should_quit(&KeyPress::Char('a')));
    assert!(!should_quit(&KeyPress::Other));
}
