use napewno::codec::{
    describe_change, extract_statistics, generate_tweet, tweet_message, Change, Trend,
};

const CHARACTERS_LIMIT: usize = 280;
const MAX_ERRORS_DAILY: usize = 100000;

// 2023-02-01 00:00:00 UTC.
const FIRST_OF_FEBRUARY: i64 = 1_675_209_600;

#[test]
fn test_generate_tweet() {
    let longest = MAX_ERRORS_DAILY;
    let limit = CHARACTERS_LIMIT;
    let text = generate_tweet(FIRST_OF_FEBRUARY, longest, longest).unwrap();
    assert!(text.len().le(&limit));
}

#[test]
fn test_extract_statistics() {
    let string = "   \n\n\0\0 01a a1 1111-11-11 111";
    assert_eq!(extract_statistics(string).unwrap(), 111);
}

#[test]
fn extract_takes_the_first_numeral_only() {
    assert_eq!(extract_statistics("x 12 13"), Some(12));
    assert_eq!(extract_statistics("12"), Some(12));
    assert_eq!(extract_statistics("  12  "), Some(12));
    assert_eq!(extract_statistics("a1 2b 3"), Some(3));
}

#[test]
fn extract_finds_nothing_where_no_word_is_a_numeral() {
    assert_eq!(extract_statistics(""), None);
    assert_eq!(extract_statistics("   \n\t "), None);
    assert_eq!(extract_statistics("abc def"), None);
    assert_eq!(extract_statistics("1a 2023-01-31 12% (+5"), None);
    assert_eq!(extract_statistics("+"), None);
    assert_eq!(extract_statistics("-5"), None);
    assert_eq!(extract_statistics("1.5"), None);
    assert_eq!(extract_statistics("١٢"), None);
}

#[test]
fn extract_reads_numerals_as_the_standard_parser_does() {
    assert_eq!(extract_statistics("+5"), Some(5));
    assert_eq!(extract_statistics("007"), Some(7));
    assert_eq!(extract_statistics("0"), Some(0));
    assert_eq!(extract_statistics("++5 6"), Some(6));
    let most = usize::MAX.to_string();
    assert_eq!(extract_statistics(&most), Some(usize::MAX));
    assert_eq!(extract_statistics(&format!("000{}", most)), Some(usize::MAX));
    for word in ["", "+", "+5", "-5", "5+", "12", "0012", "1 2", "1a", "٣"] {
        assert_eq!(extract_statistics(word), word.split_whitespace().map(|s| s.parse::<usize>()).find(|s| s.is_ok()).map(|s| s.unwrap()));
    }
}

#[test]
fn extract_passes_over_a_numeral_too_large() {
    let too_large = format!("{}0 7", usize::MAX);
    assert_eq!(extract_statistics(&too_large), Some(7));
    assert_eq!(extract_statistics("340282366920938463463374607431768211456"), None);
}

#[test]
fn extract_splits_on_every_kind_of_whitespace() {
    for space in [
        '\u{9}', '\u{a}', '\u{b}', '\u{c}', '\u{d}', ' ', '\u{85}', '\u{a0}', '\u{1680}',
        '\u{2000}', '\u{2005}', '\u{200a}', '\u{2028}', '\u{2029}', '\u{202f}', '\u{205f}',
        '\u{3000}',
    ] {
        let text = format!("a{}12{}b", space, space);
        assert_eq!(extract_statistics(&text), Some(12));
    }
    for other in ['\0', '\u{8}', '\u{e}', '\u{200b}', '\u{feff}', '\u{180e}', '_'] {
        let text = format!("a{}12", other);
        assert_eq!(extract_statistics(&text), None);
    }
}

#[test]
fn message_round_trips_the_count() {
    for prev in [0usize, 1, 7, 50, 75, 99_999, usize::MAX] {
        for cur in [0usize, 1, 7, 50, 75, 100_000, usize::MAX] {
            let text = tweet_message("2023-01-31", prev, cur);
            assert_eq!(extract_statistics(&text), Some(cur));
        }
    }
}

#[test]
fn generated_message_round_trips_the_count() {
    for (prev, cur) in [(0usize, 0usize), (0, 12), (12, 12), (50, 75), (75, 50)] {
        let text = generate_tweet(FIRST_OF_FEBRUARY, prev, cur).unwrap();
        assert_eq!(extract_statistics(&text), Some(cur));
    }
}

#[test]
fn generated_message_names_the_day_before() {
    let text = generate_tweet(FIRST_OF_FEBRUARY, 0, 12).unwrap();
    assert_eq!(
        text,
        "W dniu 2023-01-31 wyrażenie 'na pewno' zostało błędnie napisane przez 12 użytkowników Twittera."
    );
    let text = generate_tweet(FIRST_OF_FEBRUARY + 86_399, 0, 12).unwrap();
    assert!(text.starts_with("W dniu 2023-01-31 "));
    let text = generate_tweet(FIRST_OF_FEBRUARY - 1, 0, 12).unwrap();
    assert!(text.starts_with("W dniu 2023-01-30 "));
    let text = generate_tweet(0, 0, 12).unwrap();
    assert!(text.starts_with("W dniu 1969-12-31 "));
}

#[test]
fn generated_message_names_the_day_that_the_calendar_gives() {
    for now in [0i64, 86_399, 951_868_800, 1_709_251_200, 4_102_444_800, -2_208_988_800] {
        let today = time::OffsetDateTime::from_unix_timestamp(now).unwrap().date();
        let yesterday = today.previous_day().unwrap().to_string();
        let text = generate_tweet(now, 0, 1).unwrap();
        assert_eq!(text, tweet_message(&yesterday, 0, 1));
    }
}

#[test]
fn generated_message_needs_a_day_before() {
    assert_eq!(generate_tweet(i64::MIN, 1, 2), None);
    assert_eq!(generate_tweet(i64::MIN + 86_399, 1, 2), None);
    assert_eq!(generate_tweet(i64::MAX, 1, 2), None);
}

#[test]
fn cold_start_message_has_no_comparison() {
    let text = tweet_message("2023-01-31", 0, 7);
    assert_eq!(
        text,
        "W dniu 2023-01-31 wyrażenie 'na pewno' zostało błędnie napisane przez 7 użytkowników Twittera."
    );
    assert!(!text.contains('\n'));
    assert!(!text.contains('%'));
    assert_eq!(extract_statistics(&text), Some(7));
}

#[test]
fn message_for_an_increase() {
    assert_eq!(
        tweet_message("2023-01-31", 50, 75),
        "W dniu 2023-01-31 wyrażenie 'na pewno' zostało błędnie napisane przez 75 użytkowników Twittera.\n\nTo wynik o 25 większy względem poprzedniego dnia (+50%). 📈"
    );
}

#[test]
fn message_for_a_decrease() {
    assert_eq!(
        tweet_message("2023-01-31", 75, 50),
        "W dniu 2023-01-31 wyrażenie 'na pewno' zostało błędnie napisane przez 50 użytkowników Twittera.\n\nTo wynik o 25 mniejszy względem poprzedniego dnia (-33%). 📉"
    );
}

#[test]
fn message_for_an_unchanged_count() {
    assert_eq!(
        tweet_message("2023-01-31", 75, 75),
        "W dniu 2023-01-31 wyrażenie 'na pewno' zostało błędnie napisane przez 75 użytkowników Twittera.\n\nTo wynik taki sam jak poprzedniego dnia. 📊"
    );
}

#[test]
fn percentage_of_fifty_to_seventy_five() {
    assert_eq!(
        describe_change(50, 75),
        Some(Change { amount: 25, percent: 50, trend: Trend::Increase })
    );
}

#[test]
fn percentage_is_rounded_to_the_nearest_whole() {
    assert_eq!(describe_change(3, 4).unwrap().percent, 33);
    assert_eq!(describe_change(3, 5).unwrap().percent, 67);
    assert_eq!(describe_change(8, 9).unwrap().percent, 13);
    assert_eq!(describe_change(8, 7).unwrap().percent, 13);
    assert_eq!(describe_change(200, 201).unwrap().percent, 1);
    assert_eq!(describe_change(201, 202).unwrap().percent, 0);
    assert_eq!(describe_change(1, usize::MAX).unwrap().percent, (usize::MAX as u128 - 1) * 100);
    assert_eq!(describe_change(usize::MAX, 0).unwrap().percent, 100);
}

#[test]
fn percentage_is_the_nearest_whole_on_small_counts() {
    for prev in 1u128..60 {
        for cur in 0u128..60 {
            let diff = prev.abs_diff(cur);
            let change = describe_change(prev as usize, cur as usize).unwrap();
            assert_eq!(change.amount as u128, diff);
            // Twice the distance between the percentage and the exact quotient, times `prev`.
            let twice_off = (2 * change.percent * prev).abs_diff(200 * diff);
            assert!(twice_off <= prev);
            // Of two wholes equally near, the upper one is taken.
            if twice_off == prev {
                assert!(change.percent * prev > 100 * diff);
            }
        }
    }
}

#[test]
fn percentage_of_a_half_goes_up() {
    assert_eq!(describe_change(40, 63).unwrap().percent, 58);
    assert_eq!(describe_change(40, 17).unwrap().percent, 58);
    assert_eq!(describe_change(200, 199).unwrap().percent, 1);
}

#[test]
fn change_has_a_direction() {
    assert_eq!(describe_change(1, 2).unwrap().trend, Trend::Increase);
    assert_eq!(describe_change(2, 1).unwrap().trend, Trend::Decrease);
    assert_eq!(describe_change(2, 2).unwrap().trend, Trend::Unchanged);
    assert_eq!(describe_change(2, 2).unwrap().amount, 0);
    assert_eq!(describe_change(2, 2).unwrap().percent, 0);
}

#[test]
fn no_change_is_described_without_an_earlier_count() {
    assert_eq!(describe_change(0, 0), None);
    assert_eq!(describe_change(0, 75), None);
    assert_eq!(describe_change(0, usize::MAX), None);
}
