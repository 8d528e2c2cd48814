use ex_mgrs::convert::{check_precision, coordinates_to_grid, grid_to_utm};
use ex_mgrs::coordinate::GeographicCoordinate;
use ex_mgrs::error::ConversionError;
use ex_mgrs::utm::{ProjectedPoint, UtmCoordinate};
use ex_mgrs::zone::{resolve_zone, Hemisphere};
use geoconvert::{LatLon, UtmUps};

fn project(coordinate: &GeographicCoordinate) -> ProjectedPoint {
    let point = LatLon::create(
        f64::from_bits(coordinate.latitude_bits()),
        f64::from_bits(coordinate.projection_longitude_bits()),
    )
    .unwrap();
    let utm = point.to_utmups();
    ProjectedPoint {
        zone: utm.zone(),
        north: utm.is_north(),
        easting_bits: utm.easting().to_bits(),
        northing_bits: utm.northing().to_bits(),
    }
}

fn unproject(utm: &UtmCoordinate) -> Result<GeographicCoordinate, ConversionError> {
    let position = UtmUps::create(
        i32::from(utm.zone_number()),
        utm.hemisphere() == Hemisphere::North,
        f64::from(utm.easting()),
        f64::from(utm.northing()),
    )
    .map_err(|_| ConversionError::OutOfProjectionDomain)?;
    let point = position.to_latlon();
    GeographicCoordinate::from_projection(point.latitude().to_bits(), point.longitude().to_bits())
}

fn lat_lon_to_mgrs(lat: f64, lon: f64, precision: i32) -> Result<String, ConversionError> {
    let coordinate = GeographicCoordinate::validate(lat.to_bits(), lon.to_bits())?;
    check_precision(precision)?;
    coordinates_to_grid(&coordinate, &project(&coordinate), precision)
}

fn mgrs_to_lat_lon(text: &str) -> Result<(f64, f64), ConversionError> {
    let utm = grid_to_utm(text)?;
    let c = unproject(&utm)?;
    Ok((f64::from_bits(c.latitude_bits()), f64::from_bits(c.longitude_bits())))
}

fn point(lat: f64, lon: f64) -> LatLon {
    LatLon::create(lat, if lon >= 180.0 { lon - 360.0 } else { lon }).unwrap()
}

fn distance(a: (f64, f64), b: (f64, f64)) -> f64 {
    point(a.0, a.1).haversine(&point(b.0, b.1))
}

fn polar(lat: f64) -> bool {
    !(-80.0..84.0).contains(&lat)
}

fn sample_points() -> Vec<(f64, f64)> {
    let mut points = Vec::new();
    let mut lat = -90.0;
    while lat <= 90.0 {
        let mut lon = -179.7;
        while lon < 180.0 {
            points.push((lat, lon));
            lon += 7.3;
        }
        lat += 3.7;
    }
    // Near the edges of bands and zones, and round the poles.
    for lat in [
        -89.99, -84.0, -80.1, -80.0001, -80.0, -79.9999, -72.01, -72.0, -71.99, -71.95, -64.05,
        -64.0, -63.95, -8.0, -0.0001, 0.0, 0.0001, 7.9999, 8.0, 55.9999, 56.0, 63.95, 64.0,
        64.05, 71.95, 72.0, 72.05, 83.9, 83.9999, 84.0, 84.0001, 85.0, 89.0, 89.99, 90.0,
    ] {
        for lon in [
            -180.0, -179.9999, -177.0, -174.0001, -174.0, -90.0, -3.0001, -0.0001, 0.0, 0.0001,
            0.05, 2.9999, 3.0, 5.95, 6.0, 6.05, 8.9999, 9.0, 11.9999, 12.0, 21.0, 33.0, 41.9999,
            42.0, 90.0, 135.0, 174.05, 179.9999,
        ] {
            points.push((lat, lon));
        }
    }
    points
}

#[test]
fn concrete_example() {
    let text = lat_lon_to_mgrs(38.8977, -77.0365, 5).unwrap();
    assert_eq!(text, "18SUJ2339407395");
    let reference = LatLon::create(38.8977, -77.0365).unwrap().to_mgrs(5).to_string();
    assert_eq!(text, reference);
    let back = mgrs_to_lat_lon(&text).unwrap();
    assert!(distance(back, (38.8977, -77.0365)) <= 1.5);
    assert!((back.0 - 38.8977).abs() < 1e-5);
    assert!((back.1 - -77.0365).abs() < 2e-5);
}

#[test]
fn precision_changes_only_the_digits() {
    assert_eq!(lat_lon_to_mgrs(38.8977, -77.0365, 0).unwrap(), "18SUJ");
    assert_eq!(lat_lon_to_mgrs(38.8977, -77.0365, 1).unwrap(), "18SUJ20");
    assert_eq!(lat_lon_to_mgrs(38.8977, -77.0365, 2).unwrap(), "18SUJ2307");
    assert_eq!(lat_lon_to_mgrs(38.8977, -77.0365, 3).unwrap(), "18SUJ233073");
    assert_eq!(lat_lon_to_mgrs(38.8977, -77.0365, 4).unwrap(), "18SUJ23390739");
    assert_eq!(
        lat_lon_to_mgrs(38.8977, -77.0365, 6),
        Err(ConversionError::PrecisionOutOfRange)
    );
    assert_eq!(
        lat_lon_to_mgrs(38.8977, -77.0365, -1),
        Err(ConversionError::PrecisionOutOfRange)
    );
}

#[test]
fn invalid_coordinates_come_first() {
    assert_eq!(lat_lon_to_mgrs(90.0001, 0.0, 5), Err(ConversionError::InvalidCoordinate));
    assert_eq!(lat_lon_to_mgrs(0.0, 180.0001, 5), Err(ConversionError::InvalidCoordinate));
    assert_eq!(lat_lon_to_mgrs(f64::NAN, 0.0, 9), Err(ConversionError::InvalidCoordinate));
}

#[test]
fn known_places() {
    assert_eq!(lat_lon_to_mgrs(40.748333, -73.985278, 5).unwrap(), "18TWL8566411315");
    assert_eq!(lat_lon_to_mgrs(60.0, 5.0, 0).unwrap()[..3].to_string(), "32V");
    assert_eq!(lat_lon_to_mgrs(0.0, 0.0, 5).unwrap(), "31NAA6602100000");
    assert_eq!(lat_lon_to_mgrs(-0.0, 0.0, 5).unwrap(), "31NAA6602100000");
}

#[test]
fn agrees_with_the_projection_crate_on_zone_and_hemisphere() {
    for (lat, lon) in sample_points() {
        let c = GeographicCoordinate::validate(lat.to_bits(), lon.to_bits()).unwrap();
        let zone = resolve_zone(&c);
        let utm = LatLon::create(lat, lon).unwrap().to_utmups();
        assert_eq!(i32::from(zone.zone_number), utm.zone(), "at {lat} {lon}");
        assert_eq!(zone.latitude_band >= 'N', utm.is_north(), "at {lat} {lon}");
    }
}

#[test]
fn agrees_with_the_projection_crate_on_the_text() {
    for (lat, lon) in sample_points() {
        if polar(lat) && lon == -180.0 {
            // See `meridian_180_in_the_polar_grids`.
            continue;
        }
        if !polar(lat) && lat % 8.0 == 0.0 {
            // See `a_band_begins_at_its_southern_edge`.
            continue;
        }
        for precision in 0..=5 {
            let ours = lat_lon_to_mgrs(lat, lon, precision).unwrap();
            let theirs = LatLon::create(lat, lon).unwrap().to_mgrs(precision).to_string();
            assert_eq!(ours, theirs, "at {lat} {lon} precision {precision}");
        }
    }
}

#[test]
fn meridian_180_in_the_polar_grids() {
    // The meridian has the easting of the pole, which belongs to the eastern
    // band. The projection returns some tenths of a nanometre less.
    let c = GeographicCoordinate::validate((-80.1f64).to_bits(), (-180.0f64).to_bits()).unwrap();
    let projected = f64::from_bits(project(&c).easting_bits);
    assert!((projected - 2_000_000.0).abs() < 1e-6);
    assert_eq!(lat_lon_to_mgrs(-80.1, -180.0, 0).unwrap(), "BAA");
    assert_eq!(lat_lon_to_mgrs(-80.1, 180.0, 0).unwrap(), "BAA");
    assert_eq!(lat_lon_to_mgrs(-80.1, 0.0, 0).unwrap(), "BAZ");
    assert_eq!(lat_lon_to_mgrs(85.0, 180.0, 0).unwrap()[..2].to_string(), "ZA");
    assert_eq!(lat_lon_to_mgrs(85.0, 0.0, 0).unwrap()[..2].to_string(), "ZA");
}

#[test]
fn round_trip_geo_mgrs_geo() {
    let side = [100_000.0, 10_000.0, 1_000.0, 100.0, 10.0, 1.0];
    for (lat, lon) in sample_points() {
        for precision in 0..=5usize {
            let text = lat_lon_to_mgrs(lat, lon, precision as i32).unwrap();
            let back = mgrs_to_lat_lon(&text).unwrap();
            let d = distance(back, (lat, lon));
            assert!(d <= 1.5 * side[precision], "at {lat} {lon}: {text} is {d} m away");
        }
    }
}

#[test]
fn round_trip_mgrs_geo_mgrs() {
    let mut texts = vec![
        String::from("18SUJ2339407395"),
        String::from("18TWL8566411315"),
        String::from("56HLH3400050000"),
        String::from("32VNM1234567890"),
        String::from("33XVK0000000000"),
        String::from("18SUJ23390739"),
        String::from("18SUJ233073"),
        String::from("ZAH0000000000"),
        String::from("BAN0000000000"),
        String::from("ZAH"),
        String::from("YZG1234567890"),
        String::from("ZBJ1234567890"),
        String::from("ATN1234567890"),
        String::from("BFP1234567890"),
        String::from("BKP5050"),
    ];
    let mut lat = -76.0;
    while lat < 80.0 {
        let mut lon = -175.7;
        while lon < 180.0 {
            for precision in 3..=5 {
                texts.push(lat_lon_to_mgrs(lat, lon, precision).unwrap());
            }
            if lat > -45.0 && lat < 45.0 {
                for precision in 0..3 {
                    texts.push(lat_lon_to_mgrs(lat + 3.0, lon, precision).unwrap());
                }
            }
            lon += 6.0;
        }
        lat += 8.0;
    }
    for text in texts {
        let (lat, lon) = mgrs_to_lat_lon(&text).unwrap();
        let lead = if text.starts_with(|c: char| c.is_ascii_digit()) { 5 } else { 3 };
        let precision = ((text.len() - lead) / 2) as i32;
        assert_eq!(lat_lon_to_mgrs(lat, lon, precision).unwrap(), text);
    }
}

#[test]
fn projection_in_another_zone_is_refused() {
    let c = GeographicCoordinate::validate(38.8977f64.to_bits(), (-77.0365f64).to_bits()).unwrap();
    let good = project(&c);
    assert!(coordinates_to_grid(&c, &good, 5).is_ok());
    let out = Err(ConversionError::OutOfProjectionDomain);
    assert_eq!(coordinates_to_grid(&c, &ProjectedPoint { zone: 17, ..good }, 5), out);
    assert_eq!(coordinates_to_grid(&c, &ProjectedPoint { zone: 0, ..good }, 5), out);
    assert_eq!(
        coordinates_to_grid(&c, &ProjectedPoint { easting_bits: 99_999.0f64.to_bits(), ..good }, 5),
        out
    );
    assert_eq!(
        coordinates_to_grid(&c, &ProjectedPoint { easting_bits: 900_000.0f64.to_bits(), ..good }, 5),
        out
    );
    assert_eq!(
        coordinates_to_grid(&c, &ProjectedPoint { easting_bits: f64::NAN.to_bits(), ..good }, 5),
        out
    );
    assert_eq!(
        coordinates_to_grid(&c, &ProjectedPoint { northing_bits: 1e7f64.to_bits(), ..good }, 5),
        out
    );
    assert_eq!(
        coordinates_to_grid(&c, &ProjectedPoint { northing_bits: (-1.0f64).to_bits(), ..good }, 5),
        out
    );
    assert_eq!(
        coordinates_to_grid(&c, &ProjectedPoint { north: false, ..good }, 5),
        out
    );
    assert_eq!(
        coordinates_to_grid(&c, &good, 6),
        Err(ConversionError::PrecisionOutOfRange)
    );
}

#[test]
fn northing_follows_the_hemisphere_of_the_point() {
    let south = GeographicCoordinate::validate((-33.8688f64).to_bits(), 151.2093f64.to_bits())
        .unwrap();
    let point = project(&south);
    assert!(!point.north);
    let text = coordinates_to_grid(&south, &point, 5).unwrap();
    assert_eq!(text, LatLon::create(-33.8688, 151.2093).unwrap().to_mgrs(5).to_string());
    let utm = UtmCoordinate::from_projection(&south, &point).unwrap();
    assert_eq!(utm.hemisphere(), Hemisphere::South);
    assert_eq!(utm.zone_number(), 56);
    assert_eq!(f64::from(utm.northing()), f64::from_bits(point.northing_bits).floor());
    // The same place with its northing counted from the equator.
    let negative = ProjectedPoint {
        north: true,
        northing_bits: (f64::from_bits(point.northing_bits) - 1e7).to_bits(),
        ..point
    };
    assert_eq!(
        coordinates_to_grid(&south, &negative, 5),
        Err(ConversionError::OutOfProjectionDomain)
    );
    // On the equator a projection may count the point to either side.
    let equator = GeographicCoordinate::validate(0.0f64.to_bits(), 3.0f64.to_bits()).unwrap();
    let from_north = ProjectedPoint {
        zone: 31,
        north: true,
        easting_bits: 500_000.0f64.to_bits(),
        northing_bits: 0.0f64.to_bits(),
    };
    let from_south = ProjectedPoint { north: false, northing_bits: 1e7f64.to_bits(), ..from_north };
    assert_eq!(coordinates_to_grid(&equator, &from_north, 5).unwrap(), "31NEA0000000000");
    assert_eq!(coordinates_to_grid(&equator, &from_south, 5).unwrap(), "31NEA0000000000");
    // Just south of it the point lies in the last metre of the south.
    let below = GeographicCoordinate::validate((-1e-12f64).to_bits(), 3.0f64.to_bits()).unwrap();
    let nearly = ProjectedPoint { north: false, northing_bits: 9_999_999.9999999f64.to_bits(), ..from_north };
    assert_eq!(coordinates_to_grid(&below, &nearly, 5).unwrap(), "31MEV0000099999");
    assert_eq!(coordinates_to_grid(&below, &from_south, 5).unwrap(), "31MEV0000099999");
}

#[test]
fn meridian_180_lies_in_zone_1() {
    let text = lat_lon_to_mgrs(10.0, 180.0, 5).unwrap();
    assert_eq!(text, lat_lon_to_mgrs(10.0, -180.0, 5).unwrap());
    assert_eq!(text[..3].to_string(), "01P");
}

#[test]
fn the_poles_have_references() {
    assert_eq!(lat_lon_to_mgrs(90.0, 0.0, 5).unwrap(), "ZAH0000000000");
    assert_eq!(lat_lon_to_mgrs(-90.0, 0.0, 5).unwrap(), "BAN0000000000");
    assert_eq!(lat_lon_to_mgrs(90.0, 0.0, 0).unwrap(), "ZAH");
    assert_eq!(lat_lon_to_mgrs(-90.0, 0.0, 0).unwrap(), "BAN");
    for (lat, lon) in [(90.0, 0.0), (-90.0, 0.0), (84.0, 0.0), (-80.0001, 0.0), (87.5, -120.0)] {
        let ours = lat_lon_to_mgrs(lat, lon, 5).unwrap();
        let theirs = LatLon::create(lat, lon).unwrap().to_mgrs(5).to_string();
        assert_eq!(ours, theirs);
        let back = mgrs_to_lat_lon(&ours).unwrap();
        assert!(distance(back, (lat, lon)) <= 1.5);
    }
}

#[test]
fn every_valid_point_has_a_reference() {
    for (lat, lon) in sample_points() {
        for precision in [0, 5] {
            let text = lat_lon_to_mgrs(lat, lon, precision).unwrap();
            assert_eq!(text.len(), if polar(lat) { 3 } else { 5 } + 2 * precision as usize);
        }
    }
}

#[test]
fn polar_projection_has_to_fit_the_point() {
    let c = GeographicCoordinate::validate(87.5f64.to_bits(), (-120.0f64).to_bits()).unwrap();
    let good = project(&c);
    assert_eq!(good.zone, 0);
    assert!(good.north);
    assert!(coordinates_to_grid(&c, &good, 5).is_ok());
    let out = Err(ConversionError::OutOfProjectionDomain);
    assert_eq!(coordinates_to_grid(&c, &ProjectedPoint { zone: 11, ..good }, 5), out);
    assert_eq!(coordinates_to_grid(&c, &ProjectedPoint { north: false, ..good }, 5), out);
    assert_eq!(
        coordinates_to_grid(&c, &ProjectedPoint { easting_bits: 1_299_999.0f64.to_bits(), ..good }, 5),
        out
    );
    assert_eq!(
        coordinates_to_grid(&c, &ProjectedPoint { northing_bits: 2_700_000.0f64.to_bits(), ..good }, 5),
        out
    );
}

#[test]
fn projection_in_a_row_beyond_the_band_is_refused() {
    let c = GeographicCoordinate::validate(38.8977f64.to_bits(), (-77.0365f64).to_bits()).unwrap();
    let good = project(&c);
    let far = ProjectedPoint { northing_bits: 5_000_000.0f64.to_bits(), ..good };
    assert_eq!(
        coordinates_to_grid(&c, &far, 5),
        Err(ConversionError::OutOfProjectionDomain)
    );
}

#[test]
fn a_band_begins_at_its_southern_edge() {
    // Band M runs from 8 degrees south to the equator, its southern edge
    // included.
    assert_eq!(lat_lon_to_mgrs(-8.0, -180.0, 0).unwrap(), "01MAM");
    assert_eq!(lat_lon_to_mgrs(-8.0000001, -180.0, 0).unwrap(), "01LAM");
    assert_eq!(lat_lon_to_mgrs(8.0, 3.0, 0).unwrap()[..3].to_string(), "31P");
    assert_eq!(lat_lon_to_mgrs(7.9999999, 3.0, 0).unwrap()[..3].to_string(), "31N");
    assert_eq!(lat_lon_to_mgrs(72.0, -3.0, 0).unwrap()[..3].to_string(), "30X");
    assert_eq!(lat_lon_to_mgrs(-72.0, -3.0, 0).unwrap()[..3].to_string(), "30D");
    assert_eq!(lat_lon_to_mgrs(-80.0, -3.0, 0).unwrap()[..3].to_string(), "30C");
}
