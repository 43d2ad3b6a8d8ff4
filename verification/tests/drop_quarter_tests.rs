use tree_row::drop_quarter::DropQuarter;
use tree_row::geometry::YRange;

fn classify(min: i32, max: i32, y: i32) -> Option<DropQuarter> {
    DropQuarter::new(YRange { min, max }, y)
}

#[test]
fn boundaries_of_a_tall_row() {
    assert_eq!(classify(0, 100, 0), Some(DropQuarter::Top));
    assert_eq!(classify(0, 100, 4), Some(DropQuarter::Top));
    assert_eq!(classify(0, 100, 5), Some(DropQuarter::MiddleTop));
    assert_eq!(classify(0, 100, 49), Some(DropQuarter::MiddleTop));
    assert_eq!(classify(0, 100, 50), Some(DropQuarter::MiddleBottom));
    assert_eq!(classify(0, 100, 94), Some(DropQuarter::MiddleBottom));
    assert_eq!(classify(0, 100, 95), Some(DropQuarter::Bottom));
    assert_eq!(classify(0, 100, 99), Some(DropQuarter::Bottom));
    assert_eq!(classify(0, 100, 100), None);
}

#[test]
fn every_inside_position_gets_exactly_one_quarter() {
    let (min, max) = (-250, 750);
    for y in min..max {
        let q = classify(min, max, y);
        assert!(q.is_some(), "no quarter at y = {y}");
        let expected = if y < min + 5 {
            DropQuarter::Top
        } else if y < (min + max) / 2 {
            DropQuarter::MiddleTop
        } else if y < max - 5 {
            DropQuarter::MiddleBottom
        } else {
            DropQuarter::Bottom
        };
        assert_eq!(q, Some(expected), "wrong quarter at y = {y}");
    }
}

#[test]
fn outside_positions_get_no_quarter() {
    for y in [-40, -1, 100, 101, 140] {
        assert_eq!(classify(0, 100, y), None);
    }
    assert_eq!(classify(20, 25, 19), None);
    assert_eq!(classify(20, 25, 25), None);
}

#[test]
fn a_row_exactly_two_bands_tall_has_no_middle() {
    for y in 0..5 {
        assert_eq!(classify(0, 10, y), Some(DropQuarter::Top));
    }
    for y in 5..10 {
        assert_eq!(classify(0, 10, y), Some(DropQuarter::Bottom));
    }
    assert_eq!(classify(0, 10, 10), None);
}

#[test]
fn a_short_row_is_classified_literally() {
    // Shorter than one band: the top band swallows the whole extent
    // and even reaches past its end, while the bottom band starts
    // above the extent.
    assert_eq!(classify(0, 3, 0), Some(DropQuarter::Top));
    assert_eq!(classify(0, 3, 2), Some(DropQuarter::Top));
    assert_eq!(classify(0, 3, -1), Some(DropQuarter::Bottom));
    assert_eq!(classify(0, 3, 4), Some(DropQuarter::Top));
}

#[test]
fn an_empty_row_still_evaluates_its_bands_literally() {
    // With min == max == 7 the bands are [7, 12), [12, 7), [7, 2) and
    // [2, 7): the extent itself holds nothing, but the top band spills
    // below it and the bottom band above it.
    assert_eq!(classify(7, 7, 7), Some(DropQuarter::Top));
    assert_eq!(classify(7, 7, 11), Some(DropQuarter::Top));
    assert_eq!(classify(7, 7, 6), Some(DropQuarter::Bottom));
    assert_eq!(classify(7, 7, 2), Some(DropQuarter::Bottom));
    assert_eq!(classify(7, 7, 1), None);
    assert_eq!(classify(7, 7, 12), None);
}

#[test]
fn negative_coordinates_classify_like_positive_ones() {
    assert_eq!(classify(-100, -40, -100), Some(DropQuarter::Top));
    assert_eq!(classify(-100, -40, -95), Some(DropQuarter::MiddleTop));
    assert_eq!(classify(-100, -40, -70), Some(DropQuarter::MiddleBottom));
    assert_eq!(classify(-100, -40, -45), Some(DropQuarter::Bottom));
    assert_eq!(classify(-100, -40, -40), None);
}

#[test]
fn odd_extents_round_the_midpoint_down() {
    // [0, 25): midpoint is 12, not 13.
    assert_eq!(classify(0, 25, 11), Some(DropQuarter::MiddleTop));
    assert_eq!(classify(0, 25, 12), Some(DropQuarter::MiddleBottom));
    // [-25, 0): the floored midpoint is -13.
    assert_eq!(classify(-25, 0, -14), Some(DropQuarter::MiddleTop));
    assert_eq!(classify(-25, 0, -13), Some(DropQuarter::MiddleBottom));
}
