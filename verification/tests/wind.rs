use weather_station::wind::{direction_label, get_wind_direction, Direction, FULL_TURN};

#[test]
fn sectors_begin_every_45_degrees() {
    assert_eq!(get_wind_direction(0), Direction::N);
    assert_eq!(get_wind_direction(511), Direction::N);
    assert_eq!(get_wind_direction(512), Direction::NE);
    assert_eq!(get_wind_direction(1023), Direction::NE);
    assert_eq!(get_wind_direction(1024), Direction::E);
    assert_eq!(get_wind_direction(1536), Direction::SE);
    assert_eq!(get_wind_direction(2048), Direction::S);
    assert_eq!(get_wind_direction(2560), Direction::SW);
    assert_eq!(get_wind_direction(3072), Direction::W);
    assert_eq!(get_wind_direction(3583), Direction::W);
    assert_eq!(get_wind_direction(3584), Direction::NW);
    assert_eq!(get_wind_direction(4095), Direction::NW);
}

#[test]
fn reading_beyond_a_full_turn_is_invalid() {
    assert_eq!(FULL_TURN, 4096);
    assert_eq!(get_wind_direction(4096), Direction::Invalid);
    assert_eq!(get_wind_direction(5000), Direction::Invalid);
    assert_eq!(get_wind_direction(u16::MAX), Direction::Invalid);
}

#[test]
fn labels_of_the_directions() {
    assert_eq!(direction_label(Direction::N), "N");
    assert_eq!(direction_label(Direction::NE), "NE");
    assert_eq!(direction_label(Direction::E), "E");
    assert_eq!(direction_label(Direction::SE), "SE");
    assert_eq!(direction_label(Direction::S), "S");
    assert_eq!(direction_label(Direction::SW), "SW");
    assert_eq!(direction_label(Direction::W), "W");
    assert_eq!(direction_label(Direction::NW), "NW");
    assert_eq!(direction_label(Direction::Invalid), "Invalid Angle");
}

fn label_by_degrees(reading: u16) -> &'static str {
    let angle = (reading as f32) * (360.0 / 4096.0);
    if angle >= 0.0 && angle < 45.0 {
        "N"
    } else if angle >= 45.0 && angle < 90.0 {
        "NE"
    } else if angle >= 90.0 && angle < 135.0 {
        "E"
    } else if angle >= 135.0 && angle < 180.0 {
        "SE"
    } else if angle >= 180.0 && angle < 225.0 {
        "S"
    } else if angle >= 225.0 && angle < 270.0 {
        "SW"
    } else if angle >= 270.0 && angle < 315.0 {
        "W"
    } else if angle >= 315.0 && angle < 360.0 {
        "NW"
    } else {
        "Invalid Angle"
    }
}

#[test]
fn every_reading_agrees_with_the_angle_in_degrees() {
    for reading in 0..=u16::MAX {
        assert_eq!(
            direction_label(get_wind_direction(reading)),
            label_by_degrees(reading),
            "reading {}",
            reading
        );
    }
}
