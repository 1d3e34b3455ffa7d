use mop::tag::DateStamp;

#[test]
fn year_only_gives_the_year_and_nothing_else() {
    let stamp = DateStamp::year_only(1995);
    assert_eq!(stamp.year, Some(1995));
    assert_eq!(stamp.month, None);
    assert_eq!(stamp.day, None);
    assert_eq!(stamp.hour, None);
    assert_eq!(stamp.minute, None);
    assert_eq!(stamp.second, None);
}

#[test]
fn year_only_takes_any_year() {
    assert_eq!(DateStamp::year_only(0).year, Some(0));
    assert_eq!(DateStamp::year_only(-44).year, Some(-44));
    assert_eq!(DateStamp::year_only(i32::MAX).year, Some(i32::MAX));
}
