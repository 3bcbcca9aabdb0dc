use mediameta::mediainfo::{
    extract_metadata_from_tracks, parse_datetime, GeneralTrack, ImageTrack, Track, VideoTrack,
};
use mediameta::{parse_date, parse_string_to_u64, MediainfoError, MetaData, MetadataError};

const MP4_REPORT: &str = r#"
{
    "creatingLibrary": {
        "name": "MediaInfoLib",
        "version": "24.06",
        "url": "https://mediaarea.net/MediaInfo"
    },
    "media": {
        "@ref": "test-data\\sample-mp4-files-sample_640x360.mp4",
        "track": [
            {
                "@type": "General",
                "VideoCount": "1",
                "FileExtension": "mp4",
                "Format": "MPEG-4",
                "...": "..."
            },
            {
                "@type": "Video",
                "StreamOrder": "0",
                "ID": "1",
                "Format": "AVC",
                "Width": "640",
                "Height": "360",
                "...": "..."
            }
        ]
    }
}
"#;

const MTS_REPORT: &str = r#"
{
    "creatingLibrary": {
        "name": "MediaInfoLib",
        "version": "24.06",
        "url": "https://mediaarea.net/MediaInfo"
    },
    "media": {
        "@ref": "D:\\tmp\\00000.MTS",
        "track": [
            {
                "@type": "General",
                "ID": "0",
                "VideoCount": "1",
                "AudioCount": "1",
                "TextCount": "1",
                "FileExtension": "MTS",
                "Recorded_Date": "2013-11-09 15:07:11 UTC",
                "...": "..."
            },
            {
                "@type": "Video",
                "StreamOrder": "0-0",
                "ID": "4113",
                "MenuID": "1",
                "Format": "AVC",
                "Width": "1280",
                "Height": "720",
                "...": "..."
            },
            {
                "@type": "Audio",
                "StreamOrder": "0-1",
                "ID": "4352",
                "MenuID": "1",
                "Format": "AC-3",
                "...": "..."
            },
            {
                "@type": "Text",
                "StreamOrder": "0-2",
                "ID": "4608",
                "MenuID": "1",
                "...": "..."
            }
        ]
    }
}
"#;

const JPG_REPORT: &str = r#"
{
  "creatingLibrary": {
    "name": "MediaInfoLib",
    "version": "24.06",
    "url": "https://mediaarea.net/MediaInfo"
  },
  "media": {
    "@ref": "test-data/sample-exif_1200x800_with_date.jpg",
    "track": [
      {
        "@type": "General",
        "ImageCount": "1",
        "FileExtension": "jpg",
        "Format": "JPEG",
        "FileSize": "116025",
        "StreamSize": "0",
        "File_Created_Date": "2024-10-27 13:47:23.630 UTC",
        "File_Created_Date_Local": "2024-10-27 14:47:23.630",
        "File_Modified_Date": "2024-10-27 13:47:23.630 UTC",
        "File_Modified_Date_Local": "2024-10-27 14:47:23.630"
      },
      {
        "@type": "Image",
        "Format": "JPEG",
        "Width": "1200",
        "Height": "800",
        "ColorSpace": "YUV",
        "ChromaSubsampling": "4:2:0",
        "BitDepth": "8",
        "Compression_Mode": "Lossy",
        "StreamSize": "116025"
      }
    ]
  }
}
"#;

/// Reads the sections of a report as the tool writes it.
fn tracks_of(json_str: &str) -> Vec<Track> {
    let root: serde_json::Value = serde_json::from_str(json_str).unwrap();
    let sections = root["media"]["track"].as_array().unwrap();
    sections
        .iter()
        .map(|section| {
            let text = |key: &str| section.get(key).and_then(|v| v.as_str()).map(String::from);
            let number = |key: &str| parse_string_to_u64(section[key].as_str().unwrap()).unwrap();
            match section["@type"].as_str().unwrap() {
                "General" => Track::General(GeneralTrack {
                    recorded_date: text("Recorded_Date"),
                    encoded_date: text("Encoded_Date"),
                }),
                "Video" => {
                    Track::Video(VideoTrack { width: number("Width"), height: number("Height") })
                }
                "Image" => {
                    Track::Image(ImageTrack { width: number("Width"), height: number("Height") })
                }
                _ => Track::Other,
            }
        })
        .collect()
}

fn general(recorded: Option<&str>, encoded: Option<&str>) -> Track {
    Track::General(GeneralTrack {
        recorded_date: recorded.map(String::from),
        encoded_date: encoded.map(String::from),
    })
}

fn video(width: u64, height: u64) -> Track {
    Track::Video(VideoTrack { width, height })
}

fn image(width: u64, height: u64) -> Track {
    Track::Image(ImageTrack { width, height })
}

fn bad_date(outcome: Result<MetaData, MetadataError>) -> String {
    match outcome {
        Err(MetadataError::DateTimeParseError(text)) => text,
        other => panic!("expected a date that is none, got {:?}", other),
    }
}

#[test]
fn helper_test_mp4() {
    let metadata = extract_metadata_from_tracks(&tracks_of(MP4_REPORT)).unwrap();
    let expected = MetaData { width: 640, height: 360, creation_date: None };
    assert_eq!(metadata, expected);
}

#[test]
fn helper_test_mts() {
    let metadata = extract_metadata_from_tracks(&tracks_of(MTS_REPORT)).unwrap();
    let expected = MetaData {
        width: 1280,
        height: 720,
        creation_date: Some(parse_date("2013-11-09T15:07:11")),
    };
    assert_eq!(metadata, expected);
}

#[test]
fn helper_test_jpg() {
    let metadata = extract_metadata_from_tracks(&tracks_of(JPG_REPORT)).unwrap();
    let expected = MetaData { width: 1200, height: 800, creation_date: None };
    assert_eq!(metadata, expected);
}

#[test]
fn mediainfo_helper_test_mp4() {
    let tracks = vec![general(None, None), video(640, 360)];
    let metadata = extract_metadata_from_tracks(&tracks).unwrap();
    let expected = MetaData { width: 640, height: 360, creation_date: None };
    assert_eq!(metadata, expected);
}

#[test]
fn mediainfo_helper_test_mts() {
    let tracks = vec![
        general(Some("2013-11-09 15:07:11 UTC"), None),
        video(1280, 720),
        Track::Other,
        Track::Other,
    ];
    let metadata = extract_metadata_from_tracks(&tracks).unwrap();
    let expected = MetaData {
        width: 1280,
        height: 720,
        creation_date: Some(parse_date("2013-11-09T15:07:11")),
    };
    assert_eq!(metadata, expected);
}

#[test]
fn mediainfo_helper_test_jpg() {
    let tracks = vec![general(None, None), image(1200, 800)];
    let metadata = extract_metadata_from_tracks(&tracks).unwrap();
    let expected = MetaData { width: 1200, height: 800, creation_date: None };
    assert_eq!(metadata, expected);
}

#[test]
fn a_report_without_video_or_image_says_nothing() {
    let no_media = |tracks: Vec<Track>| {
        matches!(
            extract_metadata_from_tracks(&tracks),
            Err(MetadataError::Mediainfo(MediainfoError::MetadataNotFound))
        )
    };
    assert!(no_media(vec![]));
    assert!(no_media(vec![Track::Other]));
    assert!(no_media(vec![general(None, None), Track::Other, Track::Other]));
    // Dates alone do not make a usable report.
    assert!(no_media(vec![general(Some("2013-11-09 15:07:11"), Some("2013-11-09 15:07:12"))]));
}

#[test]
fn the_recorded_date_outranks_the_encoded_date() {
    let tracks = vec![general(Some("2013-11-09 15:07:11"), Some("2020-01-01 00:00:00")), video(1, 2)];
    assert_eq!(
        extract_metadata_from_tracks(&tracks).unwrap().creation_date,
        Some(parse_date("2013-11-09T15:07:11"))
    );
    let tracks = vec![general(None, Some("UTC 2020-01-01 00:00:00")), video(1, 2)];
    assert_eq!(
        extract_metadata_from_tracks(&tracks).unwrap().creation_date,
        Some(parse_date("2020-01-01T00:00:00"))
    );
    // A bad encoded date does no harm behind a recorded date.
    let tracks = vec![general(Some("2013-11-09 15:07:11"), Some("soon")), video(1, 2)];
    assert_eq!(
        extract_metadata_from_tracks(&tracks).unwrap().creation_date,
        Some(parse_date("2013-11-09T15:07:11"))
    );
}

#[test]
fn a_bad_date_fails_the_report_with_its_text() {
    let tracks = vec![general(Some("yesterday UTC"), None), video(640, 360)];
    assert_eq!(bad_date(extract_metadata_from_tracks(&tracks)), "yesterday");
    // A bad recorded date is not passed over for a good encoded date.
    let tracks = vec![video(640, 360), general(Some("soon"), Some("2020-01-01 00:00:00"))];
    assert_eq!(bad_date(extract_metadata_from_tracks(&tracks)), "soon");
    // The first bad date is reported, also in a report without video or image.
    let tracks = vec![
        general(Some("2020-01-01 00:00:00"), None),
        general(None, Some("UTC first")),
        general(Some("second"), None),
    ];
    assert_eq!(bad_date(extract_metadata_from_tracks(&tracks)), "first");
    let tracks = vec![general(Some("2024-10-27 13:47:23.630 UTC"), None), image(1, 1)];
    assert_eq!(bad_date(extract_metadata_from_tracks(&tracks)), "2024-10-27 13:47:23.630");
}

#[test]
fn the_last_section_of_a_kind_decides() {
    let tracks = vec![
        video(640, 360),
        general(Some("2013-11-09 15:07:11"), None),
        image(1200, 800),
        general(None, None),
        general(None, Some("2020-01-01 00:00:00")),
        Track::Other,
        general(None, None),
    ];
    let expected = MetaData {
        width: 1200,
        height: 800,
        creation_date: Some(parse_date("2020-01-01T00:00:00")),
    };
    assert_eq!(extract_metadata_from_tracks(&tracks).unwrap(), expected);
    let tracks = vec![image(1200, 800), video(0, 0)];
    let expected = MetaData { width: 0, height: 0, creation_date: None };
    assert_eq!(extract_metadata_from_tracks(&tracks).unwrap(), expected);
}

#[test]
fn report_dates_may_carry_utc_marks() {
    let expected = parse_date("2013-11-09T15:07:11");
    for text in [
        "2013-11-09 15:07:11",
        "2013-11-09 15:07:11 UTC",
        "UTC 2013-11-09 15:07:11",
        "UTC 2013-11-09 15:07:11 UTC",
        "UTC UTC 2013-11-09 15:07:11 UTC UTC",
    ] {
        assert_eq!(parse_datetime(text).unwrap(), expected);
    }
}

#[test]
fn report_dates_that_are_none_come_back_without_marks() {
    let refused = |text: &str| match parse_datetime(text) {
        Err(MetadataError::DateTimeParseError(text)) => text,
        other => panic!("expected a date that is none, got {:?}", other),
    };
    assert_eq!(refused(""), "");
    assert_eq!(refused("UTC"), "UTC");
    assert_eq!(refused("UTC "), "");
    assert_eq!(refused(" UTC"), "");
    assert_eq!(refused("UTC UTC"), "UTC");
    assert_eq!(refused("2013-11-09T15:07:11 UTC"), "2013-11-09T15:07:11");
    assert_eq!(refused("2013-11-09 15:07:11UTC"), "2013-11-09 15:07:11UTC");
    assert_eq!(refused("utc 2013-11-09 15:07:11"), "utc 2013-11-09 15:07:11");
    assert_eq!(refused("UTC  2013-11-09 15:07:11 é"), " 2013-11-09 15:07:11 é");
}

#[test]
fn numbers_of_the_report_are_decimal() {
    assert_eq!(parse_string_to_u64("640"), Some(640));
    assert_eq!(parse_string_to_u64("0"), Some(0));
    assert_eq!(parse_string_to_u64("007"), Some(7));
    assert_eq!(parse_string_to_u64("+12"), Some(12));
    assert_eq!(parse_string_to_u64("18446744073709551615"), Some(u64::MAX));
    assert_eq!(parse_string_to_u64("18446744073709551616"), None);
    assert_eq!(parse_string_to_u64("99999999999999999999999"), None);
    assert_eq!(parse_string_to_u64(""), None);
    assert_eq!(parse_string_to_u64("+"), None);
    assert_eq!(parse_string_to_u64("++1"), None);
    assert_eq!(parse_string_to_u64("-1"), None);
    assert_eq!(parse_string_to_u64("-0"), None);
    assert_eq!(parse_string_to_u64(" 1"), None);
    assert_eq!(parse_string_to_u64("1 "), None);
    assert_eq!(parse_string_to_u64("1_000"), None);
    assert_eq!(parse_string_to_u64("12px"), None);
    assert_eq!(parse_string_to_u64("0x10"), None);
    assert_eq!(parse_string_to_u64("1.5"), None);
    assert_eq!(parse_string_to_u64("١٢"), None);
    assert_eq!(parse_string_to_u64("1é"), None);
}

#[test]
fn numbers_are_read_as_the_standard_library_reads_them() {
    for text in [
        "", "0", "1", "9", "10", "+0", "+", "-", "+-1", "00", "0000000000000000000000001",
        "18446744073709551615", "18446744073709551616", "18446744073709551625",
        "184467440737095516150", "4294967296", "a", "1a", "a1", "１２", "12\n", "\t12",
    ] {
        assert_eq!(parse_string_to_u64(text), text.parse::<u64>().ok(), "{:?}", text);
    }
}
