use nextory::api::Error;
use nextory::common::Sort;
use nextory::library::FileFormat;

#[test]
fn format_codes_map_to_the_closed_set() {
    assert_eq!(FileFormat::from(0x016), FileFormat::Mp3);
    assert_eq!(FileFormat::from(0x009), FileFormat::EPub);
    assert_eq!(FileFormat::from(0x00A), FileFormat::PdfDrm);
    assert_eq!(FileFormat::from(0x00B), FileFormat::PdfWatermark);
    assert_eq!(FileFormat::from(0x130), FileFormat::HLS);
}

#[test]
fn unknown_format_codes_map_to_unknown() {
    assert_eq!(FileFormat::from(0), FileFormat::Unknown);
    assert_eq!(FileFormat::from(0x017), FileFormat::Unknown);
    assert_eq!(FileFormat::from(0x131), FileFormat::Unknown);
    assert_eq!(FileFormat::from(u32::MAX), FileFormat::Unknown);
}

#[test]
fn storable_formats_have_an_extension() {
    assert_eq!(FileFormat::from(0x016).get_extension(), Ok("mp3"));
    assert_eq!(FileFormat::from(0x009).get_extension(), Ok("epub"));
    assert_eq!(FileFormat::from(0x00A).get_extension(), Ok("pdf"));
    assert_eq!(FileFormat::from(0x00B).get_extension(), Ok("pdf"));
}

#[test]
fn streams_and_unknown_formats_are_unsupported() {
    assert_eq!(FileFormat::from(0x130).get_extension(), Err(Error::UnsupportedFormat));
    assert_eq!(FileFormat::from(0x999).get_extension(), Err(Error::UnsupportedFormat));
    assert_eq!(FileFormat::HLS.get_extension(), Err(Error::UnsupportedFormat));
    assert_eq!(FileFormat::Unknown.get_extension(), Err(Error::UnsupportedFormat));
}

#[test]
fn sort_orders_have_their_wire_names() {
    let names: Vec<&str> = vec![
        Sort::Relevance.into(),
        Sort::PublishedDate.into(),
        Sort::Rating.into(),
        Sort::Title.into(),
        Sort::Authors.into(),
        Sort::Volume.into(),
        Sort::Nest.into(),
    ];
    assert_eq!(
        names,
        vec!["relevance", "published_date", "average_rating", "title", "authors", "volume", "NEST"]
    );
    assert_eq!(Sort::Rating.as_str(), "average_rating");
}
