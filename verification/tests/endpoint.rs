use fetch_analyze::endpoint::slowly;

#[test]
fn target_url_splices_the_delay_in() {
    assert_eq!(slowly(1000), "https://deelay.me//https:/1000/google.com");
}

#[test]
fn single_digit_delays_format_without_padding() {
    assert_eq!(slowly(0), "https://deelay.me//https:/0/google.com");
    assert_eq!(slowly(7), "https://deelay.me//https:/7/google.com");
}

#[test]
fn largest_delay_formats_fully() {
    assert_eq!(slowly(u32::MAX), "https://deelay.me//https:/4294967295/google.com");
}

#[test]
fn delay_digits_keep_their_order() {
    assert_eq!(slowly(907), "https://deelay.me//https:/907/google.com");
}
