use bananaslice::calculate_aspect_ratio;

#[test]
fn widescreen_resolves_to_16_9() {
    assert_eq!(calculate_aspect_ratio(1920, 1080), "16:9");
    assert_eq!(calculate_aspect_ratio(1280, 720), "16:9");
}

#[test]
fn square_resolves_to_1_1() {
    assert_eq!(calculate_aspect_ratio(100, 100), "1:1");
    assert_eq!(calculate_aspect_ratio(1, 1), "1:1");
}

#[test]
fn portrait_resolves_to_9_16() {
    assert_eq!(calculate_aspect_ratio(1080, 1920), "9:16");
}

#[test]
fn ultrawide_resolves_to_21_9() {
    assert_eq!(calculate_aspect_ratio(2100, 900), "21:9");
}

#[test]
fn near_ratios_resolve_to_nearest() {
    assert_eq!(calculate_aspect_ratio(1500, 1000), "3:2");
    assert_eq!(calculate_aspect_ratio(800, 600), "4:3");
    assert_eq!(calculate_aspect_ratio(1000, 800), "5:4");
    assert_eq!(calculate_aspect_ratio(600, 800), "3:4");
    assert_eq!(calculate_aspect_ratio(800, 1000), "4:5");
    assert_eq!(calculate_aspect_ratio(1000, 1500), "2:3");
}

#[test]
fn tie_goes_to_the_entry_listed_first() {
    // 17/12 lies exactly between 4:3 and 3:2; 4:3 stands earlier in the table.
    assert_eq!(calculate_aspect_ratio(17, 12), "4:3");
}

#[test]
fn scale_invariance_on_samples() {
    for (w, h) in [(16u32, 9u32), (4, 3), (17, 12), (9, 16), (7, 5)] {
        let base = calculate_aspect_ratio(w, h);
        for k in [2u32, 3, 10, 1000] {
            assert_eq!(calculate_aspect_ratio(w * k, h * k), base);
        }
    }
}

#[test]
fn degenerate_height_resolves_to_1_1() {
    assert_eq!(calculate_aspect_ratio(5, 0), "1:1");
    assert_eq!(calculate_aspect_ratio(0, 0), "1:1");
}

#[test]
fn zero_width_resolves_to_smallest_ratio() {
    assert_eq!(calculate_aspect_ratio(0, 5), "9:16");
}
