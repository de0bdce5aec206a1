//! Behaviour of the track-segment consumer.

use gpx::parser::create_context;
use gpx::parser::tracksegment;
use gpx::Decimal;
use gpx::EmptyExtensions;
use gpx::GpxError;
use gpx::GpxVersion;

fn context(xml: &str) -> gpx::parser::Context<EmptyExtensions> {
    create_context(xml.as_bytes(), GpxVersion::Gpx11)
}

fn dec_to_f64(d: &Decimal) -> f64 {
    let magnitude = d.mantissa as f64 / 10f64.powi(d.scale as i32);
    if d.neg {
        -magnitude
    } else {
        magnitude
    }
}

#[test]
fn consume_full_trkseg() {
    let segment = tracksegment::consume(&mut context(
        "
            <trkseg>
                <trkpt lon=\"-77.0365\" lat=\"38.8977\">
                    <name>The White House</name>
                </trkpt>
                <trkpt lon=\"-71.063611\" lat=\"42.358056\">
                    <name>Boston, Massachusetts</name>
                </trkpt>
                <trkpt lon=\"-69.7832\" lat=\"44.31055\">
                    <name>Augusta, Maine</name>
                </trkpt>
            </trkseg>",
    ));

    assert!(segment.is_ok());
    let segment = segment.unwrap();

    assert_eq!(segment.points.len(), 3);

    let mut euclidean_length = 0f64;
    for pair in segment.points.windows(2) {
        let dx = dec_to_f64(&pair[1].lon) - dec_to_f64(&pair[0].lon);
        let dy = dec_to_f64(&pair[1].lat) - dec_to_f64(&pair[0].lat);
        euclidean_length += (dx * dx + dy * dy).sqrt();
    }
    assert!((euclidean_length - 9.2377437).abs() < 1e-6);
}

#[test]
fn consume_empty() {
    let segment = tracksegment::consume(&mut context("<trkseg></trkseg>"));

    assert!(segment.is_ok());
    let segment = segment.unwrap();

    assert_eq!(segment.points.len(), 0);
}

#[test]
fn points_keep_names_in_order() {
    // Each point's name child comes back verbatim, in input order.
    let segment = tracksegment::consume(&mut context(
        "<trkseg>\
            <trkpt lat='1' lon='2'><name>alpha</name></trkpt>\
            <trkpt lat='1' lon='2'><name>beta</name></trkpt>\
            <trkpt lat='1' lon='2'><name>gamma</name></trkpt>\
            <trkpt lat='1' lon='2'><name>delta</name></trkpt>\
        </trkseg>",
    ))
    .unwrap();

    assert_eq!(segment.points.len(), 4);
    let names: Vec<Option<String>> = segment.points.iter().map(|p| p.name.clone()).collect();
    assert_eq!(
        names,
        vec![
            Some(String::from("alpha")),
            Some(String::from("beta")),
            Some(String::from("gamma")),
            Some(String::from("delta")),
        ]
    );
}

#[test]
fn unknown_child_fails_segment() {
    let result = tracksegment::consume(&mut context("<trkseg><foo></foo></trkseg>"));

    match result {
        Err(e) => assert_eq!(e, GpxError::InvalidChildElement(String::from("foo"), "tracksegment")),
        Ok(_) => panic!("expected a failure"),
    }
}

#[test]
fn tokenizer_fault_inside_segment() {
    let tokens = vec![
        gpx::parser::Token::Open { name: String::from("trkseg"), attrs: Vec::new() },
        gpx::parser::Token::Error,
    ];
    let mut ctx: gpx::parser::Context<EmptyExtensions> =
        gpx::parser::Context::new(tokens, GpxVersion::Gpx11);
    let result = tracksegment::consume(&mut ctx);

    match result {
        Err(e) => assert_eq!(e, GpxError::TrackSegmentError),
        Ok(_) => panic!("expected a failure"),
    }
}

#[test]
fn bad_latitude_is_a_hard_failure() {
    let result = tracksegment::consume(&mut context(
        "<trkseg><trkpt lat='abc' lon='1'></trkpt></trkseg>",
    ));

    match result {
        Err(e) => assert_eq!(e, GpxError::InvalidNumericValue("lat")),
        Ok(_) => panic!("expected a failure"),
    }
}

#[test]
fn missing_longitude_is_a_hard_failure() {
    let result =
        tracksegment::consume(&mut context("<trkseg><trkpt lat='1'></trkpt></trkseg>"));

    match result {
        Err(e) => assert_eq!(e, GpxError::InvalidElementLacksAttribute("lon", "trkpt")),
        Ok(_) => panic!("expected a failure"),
    }
}
