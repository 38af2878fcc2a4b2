use lightsnip::quality::VideoQuality;

#[test]
fn crf_of_each_profile() {
    assert_eq!(VideoQuality::Low.to_crf(), "28");
    assert_eq!(VideoQuality::Medium.to_crf(), "23");
    assert_eq!(VideoQuality::High.to_crf(), "18");
}
