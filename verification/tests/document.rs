//! Whole-document behaviour through the public entry points.

use gpx::read;
use gpx::Fix;
use gpx::GpxError;
use gpx::GpxVersion;
use gpx::Time;

#[test]
fn minimal_document_parses() {
    // The smallest well-formed document: no metadata, no tracks, no routes.
    let result = read(b"<gpx></gpx>").unwrap();

    assert!(result.metadata.is_none());
    assert_eq!(result.tracks.len(), 0);
    assert_eq!(result.routes.len(), 0);
    assert_eq!(result.version, GpxVersion::Unknown);
}

#[test]
fn version_attribute_is_recognized() {
    let result = read(b"<gpx version='1.1'></gpx>").unwrap();
    assert_eq!(result.version, GpxVersion::Gpx11);

    let result = read(b"<gpx version='1.0'></gpx>").unwrap();
    assert_eq!(result.version, GpxVersion::Gpx10);

    let result = read(b"<gpx version='2.7'></gpx>").unwrap();
    assert_eq!(result.version, GpxVersion::Unknown);
}

#[test]
fn bad_xml_fails() {
    let result = read(b"<gpx><trk></gpx>");

    assert!(result.is_err());
}

#[test]
fn invalid_child_inside_document_fails() {
    let result = read(b"<gpx><lyrics></lyrics></gpx>");

    match result {
        Err(e) => assert_eq!(e, GpxError::InvalidChildElement(String::from("lyrics"), "gpx")),
        Ok(_) => panic!("expected a failure"),
    }
}

#[test]
fn metadata_comes_through() {
    let result = read(
        b"<gpx><metadata>\
            <name>doc</name>\
            <desc>about</desc>\
            <keywords>a b</keywords>\
            <author><name>Someone</name><email id='box' domain='example.com'/></author>\
            <link href='http://www.example.com'><text>site</text></link>\
            <time>2009-10-17T22:58:43Z</time>\
            <bounds minlat='-1.5' minlon='-2.5' maxlat='1.5' maxlon='2.5'/>\
          </metadata></gpx>",
    )
    .unwrap();

    let metadata = result.metadata.unwrap();
    assert_eq!(metadata.name, Some(String::from("doc")));
    assert_eq!(metadata.description, Some(String::from("about")));
    assert_eq!(metadata.keywords, Some(String::from("a b")));

    let author = metadata.author.unwrap();
    assert_eq!(author.name, Some(String::from("Someone")));
    assert_eq!(author.email, Some(String::from("box@example.com")));

    assert_eq!(metadata.links.len(), 1);
    assert_eq!(metadata.links[0].href, "http://www.example.com");
    assert_eq!(metadata.links[0].text, Some(String::from("site")));

    assert_eq!(metadata.time, Some(Time { seconds: 1255820323, nanos: 0 }));

    let bounds = metadata.bounds.unwrap();
    assert!(bounds.min_lat.neg);
    assert_eq!(bounds.min_lat.mantissa, 15);
    assert_eq!(bounds.min_lat.scale, 1);
    assert!(!bounds.max_lon.neg);
    assert_eq!(bounds.max_lon.mantissa, 25);
    assert_eq!(bounds.max_lon.scale, 1);
}

#[test]
fn track_with_number_and_type() {
    let result = read(
        b"<gpx><trk>\
            <name>casual stroll</name>\
            <number>1</number>\
            <type>running</type>\
            <trkseg></trkseg>\
            <trkseg></trkseg>\
          </trk></gpx>",
    )
    .unwrap();

    assert_eq!(result.tracks.len(), 1);
    let track = &result.tracks[0];
    assert_eq!(track.name, Some(String::from("casual stroll")));
    assert_eq!(track.number, Some(1));
    assert_eq!(track.type_, Some(String::from("running")));
    assert_eq!(track.segments.len(), 2);
}

#[test]
fn unreadable_track_number_becomes_absent() {
    let result = read(b"<gpx><trk><number>first</number></trk></gpx>").unwrap();

    assert_eq!(result.tracks[0].number, None);
}

#[test]
fn route_collects_points() {
    let result = read(
        b"<gpx><rte>\
            <name>loop</name>\
            <rtept lat='1.25' lon='-3.5'><name>start</name></rtept>\
            <rtept lat='1.50' lon='-3.25'></rtept>\
          </rte></gpx>",
    )
    .unwrap();

    assert_eq!(result.routes.len(), 1);
    let route = &result.routes[0];
    assert_eq!(route.name, Some(String::from("loop")));
    assert_eq!(route.points.len(), 2);
    assert_eq!(route.points[0].name, Some(String::from("start")));
    assert!(!route.points[0].lat.neg);
    assert_eq!(route.points[0].lat.mantissa, 125);
    assert_eq!(route.points[0].lat.scale, 2);
    assert!(route.points[0].lon.neg);
    assert_eq!(route.points[0].lon.mantissa, 35);
    assert_eq!(route.points[0].lon.scale, 1);
}

#[test]
fn waypoint_fields_come_through() {
    let result = read(
        b"<gpx><trk><trkseg>\
            <trkpt lat='38.8977' lon='-77.0365'>\
                <ele>4.46</ele>\
                <time>2020-01-01T00:00:00Z</time>\
                <name>spot</name>\
                <cmt>note</cmt>\
                <desc>longer</desc>\
                <src>gps</src>\
                <sym>pin</sym>\
                <type>mark</type>\
                <fix>dgps</fix>\
                <sat>4</sat>\
                <hdop>5</hdop>\
                <vdop>6.2</vdop>\
                <pdop>728.</pdop>\
                <ageofdgpsdata>1</ageofdgpsdata>\
                <dgpsid>3</dgpsid>\
            </trkpt>\
          </trkseg></trk></gpx>",
    )
    .unwrap();

    let point = &result.tracks[0].segments[0].points[0];
    assert_eq!(point.elevation.unwrap().mantissa, 446);
    assert_eq!(point.elevation.unwrap().scale, 2);
    assert_eq!(point.time, Some(Time { seconds: 1577836800, nanos: 0 }));
    assert_eq!(point.name, Some(String::from("spot")));
    assert_eq!(point.comment, Some(String::from("note")));
    assert_eq!(point.description, Some(String::from("longer")));
    assert_eq!(point.source, Some(String::from("gps")));
    assert_eq!(point.symbol, Some(String::from("pin")));
    assert_eq!(point.type_, Some(String::from("mark")));
    assert_eq!(point.fix, Some(Fix::DGPS));
    assert_eq!(point.sat, Some(4));
    assert_eq!(point.hdop.unwrap().mantissa, 5);
    assert_eq!(point.hdop.unwrap().scale, 0);
    assert_eq!(point.vdop.unwrap().mantissa, 62);
    assert_eq!(point.vdop.unwrap().scale, 1);
    assert_eq!(point.pdop.unwrap().mantissa, 728);
    assert_eq!(point.pdop.unwrap().scale, 0);
    assert_eq!(point.dgps_age.unwrap().mantissa, 1);
    assert_eq!(point.dgpsid, Some(3));
    assert!(point.extensions.is_none());
}

#[test]
fn empty_elevation_becomes_absent() {
    let result =
        read(b"<gpx><trk><trkseg><trkpt lat='1' lon='2'><ele></ele></trkpt></trkseg></trk></gpx>")
            .unwrap();

    assert!(result.tracks[0].segments[0].points[0].elevation.is_none());
}

#[test]
fn fix_outside_enumeration_is_preserved() {
    let result = read(
        b"<gpx><trk><trkseg><trkpt lat='1' lon='2'>\
            <fix>something_not_in_the_spec</fix>\
          </trkpt></trkseg></trk></gpx>",
    )
    .unwrap();

    assert_eq!(
        result.tracks[0].segments[0].points[0].fix,
        Some(Fix::Other(String::from("something_not_in_the_spec")))
    );
}

#[test]
fn fix_enumeration_values_are_classified() {
    let result = read(
        b"<gpx><rte>\
            <rtept lat='1' lon='2'><fix>none</fix></rtept>\
            <rtept lat='1' lon='2'><fix>2d</fix></rtept>\
            <rtept lat='1' lon='2'><fix>3d</fix></rtept>\
            <rtept lat='1' lon='2'><fix>dgps</fix></rtept>\
          </rte></gpx>",
    )
    .unwrap();

    let points = &result.routes[0].points;
    assert_eq!(points[0].fix, Some(Fix::NoFix));
    assert_eq!(points[1].fix, Some(Fix::TwoDimensional));
    assert_eq!(points[2].fix, Some(Fix::ThreeDimensional));
    assert_eq!(points[3].fix, Some(Fix::DGPS));
}

#[test]
fn bad_timestamp_is_an_error() {
    let result = read(
        b"<gpx><metadata><time>yesterday</time></metadata></gpx>",
    );

    match result {
        Err(e) => assert_eq!(e, GpxError::InvalidTimestamp),
        Ok(_) => panic!("expected a failure"),
    }
}

#[test]
fn link_without_href_fails() {
    let result = read(b"<gpx><metadata><link><text>x</text></link></metadata></gpx>");

    match result {
        Err(e) => assert_eq!(e, GpxError::InvalidElementLacksAttribute("href", "link")),
        Ok(_) => panic!("expected a failure"),
    }
}

#[test]
fn extensions_are_skipped_by_default() {
    let result = read(
        b"<gpx><trk><trkseg>\
            <trkpt lat='1' lon='2'>\
                <name>pt</name>\
                <extensions><speed>1.5</speed></extensions>\
                <sym>pin</sym>\
            </trkpt>\
          </trkseg></trk></gpx>",
    )
    .unwrap();

    let point = &result.tracks[0].segments[0].points[0];
    assert_eq!(point.name, Some(String::from("pt")));
    assert_eq!(point.symbol, Some(String::from("pin")));
    assert!(point.extensions.is_none());
}

#[test]
fn comments_and_instructions_are_ignored() {
    let result = read(
        b"<?xml version='1.0'?><gpx><!-- a note --><trk><!-- more --><trkseg>\
          </trkseg></trk></gpx>",
    )
    .unwrap();

    assert_eq!(result.tracks.len(), 1);
}

#[test]
fn trailing_content_after_root_is_never_read() {
    let result = read(b"<gpx></gpx> ");

    assert!(result.is_ok());
}

#[test]
fn read_with_extensions_matches_read() {
    let result =
        gpx::read_with_extensions::<gpx::EmptyExtensions>(b"<gpx version='1.1'></gpx>").unwrap();

    assert_eq!(result.version, GpxVersion::Gpx11);
    assert_eq!(result.tracks.len(), 0);
}

#[test]
fn bounds_missing_edge_names_it() {
    let result = read(b"<gpx><metadata><bounds minlat='1'/></metadata></gpx>");

    match result {
        Err(e) => assert_eq!(e, GpxError::InvalidElementLacksAttribute("minlon", "bounds")),
        Ok(_) => panic!("expected a failure"),
    }
}

#[test]
fn bounds_unreadable_edge_names_it() {
    let result = read(
        b"<gpx><metadata><bounds minlat='1' minlon='x' maxlat='2' maxlon='3'/></metadata></gpx>",
    );

    match result {
        Err(e) => assert_eq!(e, GpxError::InvalidNumericValue("minlon")),
        Ok(_) => panic!("expected a failure"),
    }
}

#[test]
fn email_missing_domain_names_it() {
    let result = read(b"<gpx><metadata><author><email id='box'/></author></metadata></gpx>");

    match result {
        Err(e) => assert_eq!(e, GpxError::InvalidElementLacksAttribute("domain", "email")),
        Ok(_) => panic!("expected a failure"),
    }
}

#[test]
fn repeated_reads_agree() {
    // Parsing is a function of the bytes, extension containers included.
    let data: &[u8] = b"<gpx version='1.1'><trk><trkseg>\
        <trkpt lat='1' lon='2'><extensions><speed>1.5</speed></extensions><name>pt</name></trkpt>\
      </trkseg></trk></gpx>";

    let first = read(data).unwrap();
    let second = read(data).unwrap();

    assert_eq!(first.version, second.version);
    assert_eq!(first.tracks.len(), second.tracks.len());
    let p1 = &first.tracks[0].segments[0].points[0];
    let p2 = &second.tracks[0].segments[0].points[0];
    assert_eq!(p1.name, p2.name);
    assert_eq!(p1.lat, p2.lat);
    assert!(p1.extensions.is_none() && p2.extensions.is_none());
}
