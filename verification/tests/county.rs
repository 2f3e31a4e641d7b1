use county_lookup::{County, Error, Feature, GeoJson, Geometry, Point, Properties, Record};

/// Degrees as fixed-point, in units of 1e-7 degree.
fn deg(d: f64) -> i32 {
    (d * 1e7).round() as i32
}

fn feature(name: &str, rings: Vec<Vec<Vec<i32>>>) -> Feature {
    Feature {
        kind: "Feature".to_string(),
        properties: Properties { navn: name.to_string() },
        geometry: Geometry { kind: "Polygon".to_string(), coordinates: rings },
    }
}

/// An outline of the island of Osterøy, longitude first, closed.
fn osteroy_ring() -> Vec<Vec<i32>> {
    let outline = [
        (5.34, 60.47),
        (5.46, 60.42),
        (5.66, 60.44),
        (5.84, 60.55),
        (5.80, 60.66),
        (5.62, 60.68),
        (5.44, 60.60),
        (5.34, 60.47),
    ];
    outline.iter().map(|&(lon, lat)| vec![deg(lon), deg(lat)]).collect()
}

fn sample_geojson() -> GeoJson {
    GeoJson {
        kind: "FeatureCollection".to_string(),
        features: vec![feature("Osterøy", vec![osteroy_ring()])],
    }
}

/// A rectangle from latitude 0 to 10 and longitude 0 to 100, longitude first.
fn wide_rectangle() -> Vec<Vec<i32>> {
    vec![vec![0, 0], vec![100, 0], vec![100, 10], vec![0, 10]]
}

#[test]
fn test_county() {
    let json = sample_geojson();
    let res = County::new(&json.features[0]).unwrap();
    assert_eq!(res.name(), "Osterøy");
    assert_eq!(res.lookup(&Point::new(deg(60.524035), deg(5.552604))).unwrap(), "Osterøy");
}

#[test]
fn county_has_no_answer_for_a_point_outside() {
    let json = sample_geojson();
    let res = County::new(&json.features[0]).unwrap();
    assert_eq!(res.lookup(&Point::new(deg(59.2761), deg(11.0531))), None);
}

#[test]
fn county_reorders_the_source_coordinates() {
    let county = County::new(&feature("Wide", vec![wide_rectangle()])).unwrap();
    assert_eq!(county.lookup(&Point::new(5, 50)), Some("Wide".to_string()));
    assert_eq!(county.lookup(&Point::new(50, 5)), None);
}

#[test]
fn county_reads_the_first_ring_only() {
    let hole = vec![vec![40, 4], vec![60, 4], vec![60, 6], vec![40, 6]];
    let county = County::new(&feature("Wide", vec![wide_rectangle(), hole])).unwrap();
    assert_eq!(county.lookup(&Point::new(5, 50)), Some("Wide".to_string()));
}

#[test]
fn county_takes_positions_with_an_altitude() {
    let ring = vec![vec![0, 0, 7], vec![100, 0, 7], vec![100, 10, 7], vec![0, 10, 7]];
    let county = County::new(&feature("High", vec![ring])).unwrap();
    assert_eq!(county.lookup(&Point::new(5, 50)), Some("High".to_string()));
}

#[test]
fn county_lookup_record_echoes_the_testid() {
    let county = County::new(&feature("Wide", vec![wide_rectangle()])).unwrap();
    let inside = Record { index: 0, testid: 2200000002, longitude: 50, latitude: 5 };
    let outside = Record { index: 1, testid: 2200000003, longitude: 5, latitude: 50 };
    assert_eq!(county.lookup_record(&inside), Some((2200000002, "Wide".to_string())));
    assert_eq!(county.lookup_record(&outside), None);
}

#[test]
fn county_without_rings_is_refused() {
    assert_eq!(County::new(&feature("Empty", vec![])).err(), Some(Error::MalformedGeometry));
}

#[test]
fn county_with_an_empty_ring_is_refused() {
    assert_eq!(County::new(&feature("Empty", vec![vec![]])).err(), Some(Error::MalformedGeometry));
}

#[test]
fn county_with_a_ring_of_two_points_is_refused() {
    let ring = vec![vec![0, 0], vec![100, 0]];
    assert_eq!(County::new(&feature("Thin", vec![ring])).err(), Some(Error::MalformedGeometry));
}

#[test]
fn county_with_a_short_position_is_refused() {
    let ring = vec![vec![0, 0], vec![100, 0], vec![100], vec![0, 10]];
    assert_eq!(County::new(&feature("Short", vec![ring])).err(), Some(Error::MalformedGeometry));
}

#[test]
fn county_without_a_name_is_refused() {
    assert_eq!(County::new(&feature("", vec![wide_rectangle()])).err(), Some(Error::MissingName));
}

#[test]
fn county_geometry_is_judged_before_the_name() {
    assert_eq!(County::new(&feature("", vec![])).err(), Some(Error::MalformedGeometry));
}
