use quatronaut::playablearea::{ClampDimension, PlayableArea};

#[test]
fn fields_of_a_screen() {
    assert_eq!(
        PlayableArea::new(1_920_000_000, 1_080_000_000, true, false),
        PlayableArea {
            min_x: 480_000_000,
            max_x: 1_440_000_000,
            min_y: 54_000_000,
            max_y: 1_026_000_000
        }
    );
    assert_eq!(
        PlayableArea::new(1_920_000_000, 1_080_000_000, false, false),
        PlayableArea {
            min_x: 38_400_000,
            max_x: 1_881_600_000,
            min_y: 48_600_000,
            max_y: 1_031_400_000
        }
    );
    assert_eq!(
        PlayableArea::new(2_880_000_000, 1_710_000_000, true, true),
        PlayableArea {
            min_x: 950_400_000,
            max_x: 1_929_600_000,
            min_y: 376_200_000,
            max_y: 1_333_800_000
        }
    );
    assert_eq!(
        PlayableArea::new(2_880_000_000, 1_710_000_000, false, true),
        PlayableArea {
            min_x: 489_600_000,
            max_x: 2_390_400_000,
            min_y: 342_000_000,
            max_y: 1_368_000_000
        }
    );
}

#[test]
fn the_default_field_is_empty() {
    assert_eq!(PlayableArea::default(), PlayableArea { min_x: 0, max_x: 0, min_y: 0, max_y: 0 });
}

fn area() -> PlayableArea {
    PlayableArea { min_x: 480_000_000, max_x: 1_440_000_000, min_y: 54_000_000, max_y: 1_026_000_000 }
}

#[test]
fn relative_coordinates_reach_the_corners() {
    let area = area();
    assert_eq!(area.relative_coordinates(&0, &0), (area.min_x, area.min_y));
    assert_eq!(area.relative_coordinates(&1_000_000, &1_000_000), (area.max_x, area.max_y));
    assert_eq!(area.relative_coordinates(&0, &1_000_000), (area.min_x, area.max_y));
    let odd = PlayableArea { min_x: -7, max_x: 13, min_y: -1_000_001, max_y: -3 };
    assert_eq!(odd.relative_coordinates(&0, &0), (-7, -1_000_001));
    assert_eq!(odd.relative_coordinates(&1_000_000, &1_000_000), (13, -3));
}

#[test]
fn relative_coordinates_are_fractions_of_the_field() {
    let area = area();
    assert_eq!(area.relative_coordinates(&500_000, &500_000), (960_000_000, 540_000_000));
    assert_eq!(area.relative_coordinates(&250_000, &300_000), (720_000_000, 345_600_000));
    // fractions outside of zero to one lie outside of the field
    assert_eq!(area.relative_coordinates(&-40_000, &1_040_000), (441_600_000, 1_064_880_000));
}

#[test]
fn the_border_is_inside() {
    let area = area();
    assert!(!area.out_of_bounds(480_000_000, 54_000_000));
    assert!(!area.out_of_bounds(1_440_000_000, 1_026_000_000));
    assert!(!area.out_of_bounds(900_000_000, 500_000_000));
    assert!(area.out_of_bounds(479_999_999, 500_000_000));
    assert!(area.out_of_bounds(1_440_000_001, 500_000_000));
    assert!(area.out_of_bounds(900_000_000, 53_999_999));
    assert!(area.out_of_bounds(900_000_000, 1_026_000_001));
}

#[test]
fn clamping_saturates_at_the_bounds() {
    let area = area();
    assert_eq!(area.clamp_x(479_000_000), 480_000_000);
    assert_eq!(area.clamp_x(1_441_000_000), 1_440_000_000);
    assert_eq!(area.clamp_x(1_000_000_000), 1_000_000_000);
    assert_eq!(area.clamp_y(0), 54_000_000);
    assert_eq!(area.clamp_y(i64::MAX), 1_026_000_000);
    assert_eq!(area.clamp_y(54_000_000), 54_000_000);
    assert_eq!(area.clamp(i64::MIN, ClampDimension::ClampX), 480_000_000);
    assert_eq!(area.clamp(i64::MIN, ClampDimension::ClampY), 54_000_000);
}
