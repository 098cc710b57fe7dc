use iscc_cli::error::PipelineError;
use iscc_cli::media::{
    classify_local_mime, get_gmt_from_file, get_gmt_from_tika, split_mime, GeneralMediaType,
    Strategy, DOCX_SUBTYPE, PPTX_SUBTYPE, XLSX_SUBTYPE,
};

#[test]
fn local_and_remote_differ_on_other_application_types() {
    assert!(matches!(
        classify_local_mime("application/pdf"),
        Err(PipelineError::UnsupportedMediaType(m)) if m == "application/pdf"
    ));
    assert!(matches!(
        get_gmt_from_tika("application/pdf"),
        Ok(GeneralMediaType::Text(s)) if s == "pdf"
    ));
}

#[test]
fn office_documents_are_text_in_both_paths() {
    for sub in [DOCX_SUBTYPE, XLSX_SUBTYPE, PPTX_SUBTYPE] {
        let mime = format!("application/{}", sub);
        assert!(matches!(classify_local_mime(&mime), Ok(GeneralMediaType::Text(s)) if s == sub));
        assert!(matches!(get_gmt_from_tika(&mime), Ok(GeneralMediaType::Text(s)) if s == sub));
    }
}

#[test]
fn media_categories_map_directly() {
    assert!(matches!(classify_local_mime("image/png"), Ok(GeneralMediaType::Image(s)) if s == "png"));
    assert!(matches!(classify_local_mime("audio/mpeg"), Ok(GeneralMediaType::Audio(s)) if s == "mpeg"));
    assert!(matches!(get_gmt_from_tika("video/mp4"), Ok(GeneralMediaType::Video(s)) if s == "mp4"));
    assert!(matches!(get_gmt_from_tika("text/html"), Ok(GeneralMediaType::Text(s)) if s == "html"));
}

#[test]
fn unknown_or_malformed_types_are_refused() {
    assert!(matches!(
        classify_local_mime("model/gltf+json"),
        Err(PipelineError::UnsupportedMediaType(_))
    ));
    assert!(matches!(get_gmt_from_tika("nonsense"), Err(PipelineError::UnsupportedMediaType(m)) if m == "nonsense"));
}

#[test]
fn mime_split_stops_at_second_slash() {
    assert_eq!(split_mime("text/plain"), Some(("text".to_string(), "plain".to_string())));
    assert_eq!(split_mime("a/b/c"), Some(("a".to_string(), "b".to_string())));
    assert_eq!(split_mime("text/"), Some(("text".to_string(), String::new())));
    assert_eq!(split_mime("plain"), None);
}

#[test]
fn classification_by_extension() {
    assert!(matches!(get_gmt_from_file("/tmp/test.txt"), Ok(GeneralMediaType::Text(s)) if s == "plain"));
    assert!(matches!(get_gmt_from_file("demo.html"), Ok(GeneralMediaType::Text(s)) if s == "html"));
    assert!(matches!(get_gmt_from_file("demo.docx"), Ok(GeneralMediaType::Text(s)) if s == DOCX_SUBTYPE));
    assert!(matches!(get_gmt_from_file("demo.xlsx"), Ok(GeneralMediaType::Text(s)) if s == XLSX_SUBTYPE));
    assert!(matches!(get_gmt_from_file("demo.png"), Ok(GeneralMediaType::Image(s)) if s == "png"));
    assert!(matches!(get_gmt_from_file("demo.gif"), Ok(GeneralMediaType::Image(s)) if s == "gif"));
}

#[test]
fn unknown_extension_is_refused() {
    assert!(matches!(
        get_gmt_from_file("file.nosuchextension"),
        Err(PipelineError::UnknownExtension(p)) if p == "file.nosuchextension"
    ));
    assert!(matches!(get_gmt_from_file("noextension"), Err(PipelineError::UnknownExtension(_))));
}

#[test]
fn pdf_by_extension_is_refused_locally() {
    assert!(matches!(
        get_gmt_from_file("report.pdf"),
        Err(PipelineError::UnsupportedMediaType(m)) if m == "application/pdf"
    ));
}

#[test]
fn category_names() {
    assert_eq!(GeneralMediaType::Text("plain".to_string()).get_gmt_string(), "text");
    assert_eq!(GeneralMediaType::Image("png".to_string()).get_gmt_string(), "image");
    assert_eq!(GeneralMediaType::Audio("mpeg".to_string()).get_gmt_string(), "audio");
    assert_eq!(GeneralMediaType::Video("mp4".to_string()).get_gmt_string(), "video");
}

#[test]
fn remote_extraction_only_for_text() {
    assert!(GeneralMediaType::Text("pdf".to_string()).is_tika_extract());
    assert!(!GeneralMediaType::Image("png".to_string()).is_tika_extract());
}

#[test]
fn strategy_table() {
    let t = |s: &str| GeneralMediaType::Text(s.to_string()).strategy();
    assert_eq!(t("plain"), Strategy::Plain);
    assert_eq!(t("html"), Strategy::Html);
    assert_eq!(t(DOCX_SUBTYPE), Strategy::Docx);
    assert_eq!(t(XLSX_SUBTYPE), Strategy::Xlsx);
    assert_eq!(t(PPTX_SUBTYPE), Strategy::Pptx);
    assert_eq!(t("csv"), Strategy::RawText);
    assert_eq!(GeneralMediaType::Image("png".to_string()).strategy(), Strategy::NoText);
    assert_eq!(GeneralMediaType::Video("mp4".to_string()).strategy(), Strategy::NoText);
}
