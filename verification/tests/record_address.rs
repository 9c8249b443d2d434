use hecdss::DssPathname;

fn some(text: &str) -> Option<String> {
    Some(text.to_string())
}

fn parts(path: &DssPathname) -> [Option<String>; 6] {
    [
        path.apart().map(|p| p.to_string()),
        path.bpart().map(|p| p.to_string()),
        path.cpart().map(|p| p.to_string()),
        path.dpart().map(|p| p.to_string()),
        path.epart().map(|p| p.to_string()),
        path.fpart().map(|p| p.to_string()),
    ]
}

#[test]
fn address_of_a_regular_series() {
    let path = DssPathname::from_string("/REGULAR/TIMESERIES/FLOW//1Hour/Ex1a/").unwrap();
    assert_eq!(path.apart(), Some("REGULAR"));
    assert_eq!(path.bpart(), Some("TIMESERIES"));
    assert_eq!(path.cpart(), Some("FLOW"));
    assert_eq!(path.dpart(), Some(""));
    assert_eq!(path.epart(), Some("1Hour"));
    assert_eq!(path.fpart(), Some("Ex1a"));
    assert_eq!(path.to_string(), "/REGULAR/TIMESERIES/FLOW//1Hour/Ex1a/");
}

#[test]
fn address_of_paired_data() {
    let path = DssPathname::from_string("/PAIREDDATA/PTABLE/FREQ-FLOW///Ex2/").unwrap();
    assert_eq!(
        parts(&path),
        [some("PAIREDDATA"), some("PTABLE"), some("FREQ-FLOW"), some(""), some(""), some("Ex2")]
    );
}

#[test]
fn address_with_all_parts_empty() {
    let path = DssPathname::from_string("///////").unwrap();
    assert_eq!(parts(&path), [some(""), some(""), some(""), some(""), some(""), some("")]);
    assert_eq!(path.to_string(), "///////");
}

#[test]
fn address_parts_are_trimmed() {
    let path = DssPathname::from_string("/ A /B\t/\n C/ /  E  E  /F /").unwrap();
    assert_eq!(parts(&path), [some("A"), some("B"), some("C"), some(""), some("E  E"), some("F")]);
    assert_eq!(path.to_string(), "/A/B/C//E  E/F/");
}

#[test]
fn address_without_leading_slash() {
    assert!(DssPathname::from_string("A/B/C/D/E/F/").is_none());
    assert!(DssPathname::from_string(" /A/B/C/D/E/F/").is_none());
    assert!(DssPathname::from_string("A/B/C/D/E/F/G/").is_none());
}

#[test]
fn address_without_trailing_slash() {
    assert!(DssPathname::from_string("/A/B/C/D/E/F").is_none());
    assert!(DssPathname::from_string("/A/B/C/D/E/F/ ").is_none());
    assert!(DssPathname::from_string("/A/B/C/D/E/F/G").is_none());
}

#[test]
fn address_with_too_few_or_too_many_parts() {
    assert!(DssPathname::from_string("").is_none());
    assert!(DssPathname::from_string("/").is_none());
    assert!(DssPathname::from_string("//").is_none());
    assert!(DssPathname::from_string("/A/B/C/D/E/").is_none());
    assert!(DssPathname::from_string("//////").is_none());
    assert!(DssPathname::from_string("/A/B/C/D/E/F/G/").is_none());
    assert!(DssPathname::from_string("////////").is_none());
}

#[test]
fn address_from_its_parts() {
    let path = DssPathname::new(some("A"), None, some("C"), None, some("1Day"), some("F"));
    assert_eq!(parts(&path), [some("A"), None, some("C"), None, some("1Day"), some("F")]);
    assert_eq!(path.to_string(), "/A//C//1Day/F/");
}

#[test]
fn address_with_no_part_at_all() {
    let path = DssPathname::new(None, None, None, None, None, None);
    assert_eq!(path.to_string(), "///////");
}

#[test]
fn address_round_trip() {
    let cases: [[Option<String>; 6]; 5] = [
        [some("A"), some("B"), some("C"), some("D"), some("E"), some("F")],
        [None, None, None, None, None, None],
        [some(""), some("B"), None, some("01JAN2020"), some("1Hour"), some("")],
        [some(" A "), some("B "), some(" C"), some("  "), some("\tE\n"), some("F F")],
        [some("BASIN \u{00C4}"), some("loc-1"), some("FLOW"), None, some("15Minute"), some("v.2")],
    ];
    for case in cases {
        let [a, b, c, d, e, f] = case.clone();
        let path = DssPathname::new(a, b, c, d, e, f);
        let parsed = DssPathname::from_string(&path.to_string()).unwrap();
        let expected: Vec<Option<String>> = case
            .iter()
            .map(|p| Some(p.clone().unwrap_or_default().trim().to_string()))
            .collect();
        assert_eq!(parts(&parsed).to_vec(), expected);
    }
}

#[test]
fn address_whose_part_holds_a_slash_does_not_round_trip() {
    let path = DssPathname::new(some("A/B"), None, None, None, None, None);
    assert_eq!(path.to_string(), "/A/B//////");
    assert!(DssPathname::from_string(&path.to_string()).is_none());
}

#[test]
fn address_clones() {
    let path = DssPathname::new(some("A"), None, some("C"), None, some("1Day"), some("F"));
    let copy = path.clone();
    assert_eq!(parts(&copy), parts(&path));
    assert_eq!(copy.to_string(), "/A//C//1Day/F/");
}
