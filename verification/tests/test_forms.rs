use llamaedge::error::LlamaEdgeError;
use llamaedge::multipart::validate_local_file;
use llamaedge::multipart::LocalFile;
use llamaedge::multipart::LocalFileKind;
use llamaedge::multipart::PartData;
use llamaedge::params::ImageEditParams;
use llamaedge::params::TranscriptionParams;
use llamaedge::params::TranslationParams;
use llamaedge::Client;

fn wav_file() -> LocalFile {
    LocalFile::from_path("tests/assets/test.wav", vec![1, 2, 3]).unwrap()
}

fn text_value(data: &PartData) -> &str {
    match data {
        PartData::Text(s) => s.as_str(),
        PartData::File(_) => panic!("expected a text part"),
    }
}

#[test]
fn local_file_from_path_derives_name_and_extension() {
    let f = wav_file();
    assert_eq!(f.filename, "test.wav");
    assert_eq!(f.extension, "wav");
    assert_eq!(f.bytes, vec![1, 2, 3]);
}

#[test]
fn local_file_without_extension_is_rejected() {
    assert!(LocalFile::from_path("tests/assets/noext", vec![]).is_none());
    assert!(LocalFile::from_path("dir/.hidden", vec![]).is_none());
    assert!(LocalFile::from_path("dir/", vec![]).is_none());
    assert!(LocalFile::from_path("a/..", vec![]).is_none());
}

#[test]
fn missing_file_fails_with_invalid_argument() {
    let result = validate_local_file("no/such/file.wav", false, LocalFileKind::Audio);
    match result {
        Err(LlamaEdgeError::InvalidArgument(m)) => {
            assert_eq!(m, "The audio file does not exist: no/such/file.wav");
        },
        _ => panic!("a missing file must be rejected with InvalidArgument"),
    }
    assert!(validate_local_file("tests/assets/test.wav", true, LocalFileKind::Audio).is_ok());
}

#[test]
fn missing_file_message_is_worded_per_operation() {
    let upload = validate_local_file("a/b.wav", false, LocalFileKind::Generic);
    match upload {
        Err(LlamaEdgeError::InvalidArgument(m)) => assert_eq!(m, "The file does not exist"),
        _ => panic!("a missing upload file must be rejected with InvalidArgument"),
    }
    let image = validate_local_file("img/x.png", false, LocalFileKind::Image);
    match image {
        Err(LlamaEdgeError::InvalidArgument(m)) => {
            assert_eq!(m, "The image file does not exist: img/x.png");
        },
        _ => panic!("a missing image file must be rejected with InvalidArgument"),
    }
    let mask = validate_local_file("img/m.png", false, LocalFileKind::MaskImage);
    match mask {
        Err(LlamaEdgeError::InvalidArgument(m)) => {
            assert_eq!(m, "The mask image file does not exist: img/m.png");
        },
        _ => panic!("a missing mask file must be rejected with InvalidArgument"),
    }
    let control = validate_local_file("img/c.png", false, LocalFileKind::ControlImage);
    match control {
        Err(LlamaEdgeError::InvalidArgument(m)) => {
            assert_eq!(m, "The control image file does not exist: img/c.png");
        },
        _ => panic!("a missing control image must be rejected with InvalidArgument"),
    }
}

#[test]
fn transcription_form_parts_and_defaults() {
    let client = Client::new("http://localhost:12345").unwrap();
    let req = client
        .transcription_request(wav_file(), "en", &TranscriptionParams::default())
        .unwrap();
    assert_eq!(req.url, "http://localhost:12345/v1/audio/transcriptions");
    let parts = &req.form.parts;
    let names: Vec<&str> = parts.iter().map(|p| p.name.as_str()).collect();
    assert_eq!(
        names,
        vec![
            "file",
            "language",
            "response_format",
            "temperature",
            "detect_language",
            "offset_time",
            "duration",
            "max_context",
            "max_len",
            "split_on_word",
            "use_new_context",
        ]
    );
    match &parts[0].data {
        PartData::File(f) => {
            assert_eq!(f.filename, "test.wav");
            assert_eq!(f.mime, "audio/wav");
            assert_eq!(f.bytes, vec![1, 2, 3]);
        },
        PartData::Text(_) => panic!("the first part must be the file"),
    }
    assert_eq!(text_value(&parts[1].data), "en");
    assert_eq!(text_value(&parts[2].data), "json");
    assert_eq!(text_value(&parts[3].data), "0");
    assert_eq!(text_value(&parts[4].data), "false");
    assert_eq!(text_value(&parts[5].data), "0");
    assert_eq!(text_value(&parts[6].data), "0");
    assert_eq!(text_value(&parts[7].data), "-1");
    assert_eq!(text_value(&parts[8].data), "0");
    assert_eq!(text_value(&parts[9].data), "false");
    assert_eq!(text_value(&parts[10].data), "false");
}

#[test]
fn empty_language_defaults_to_english() {
    let client = Client::new("http://localhost:12345").unwrap();
    let req = client
        .transcription_request(wav_file(), "", &TranscriptionParams::default())
        .unwrap();
    assert_eq!(text_value(&req.form.parts[1].data), "en");
}

#[test]
fn translation_form_field_order() {
    let client = Client::new("http://localhost:12345").unwrap();
    let req = client
        .translation_request(wav_file(), "zh", &TranslationParams::default())
        .unwrap();
    assert_eq!(req.url, "http://localhost:12345/v1/audio/translations");
    let names: Vec<&str> = req.form.parts.iter().map(|p| p.name.as_str()).collect();
    assert_eq!(
        names,
        vec![
            "file",
            "response_format",
            "language",
            "temperature",
            "detect_language",
            "offset_time",
            "duration",
            "max_context",
            "max_len",
            "split_on_word",
            "use_new_context",
        ]
    );
    assert_eq!(text_value(&req.form.parts[2].data), "zh");
}

#[test]
fn optional_model_and_prompt_parts() {
    let client = Client::new("http://localhost:12345").unwrap();
    let params = TranscriptionParams {
        model: Some("whisper".to_string()),
        prompt: Some("guide".to_string()),
        ..TranscriptionParams::default()
    };
    let req = client.transcription_request(wav_file(), "en", &params).unwrap();
    let parts = &req.form.parts;
    assert_eq!(parts.len(), 13);
    assert_eq!(parts[11].name, "model");
    assert_eq!(text_value(&parts[11].data), "whisper");
    assert_eq!(parts[12].name, "prompt");
    assert_eq!(text_value(&parts[12].data), "guide");
}

#[test]
fn upload_form_holds_only_the_file() {
    let client = Client::new("http://localhost:8080").unwrap();
    let req = client.upload_file_request(wav_file()).unwrap();
    assert_eq!(req.url, "http://localhost:8080/v1/files");
    assert_eq!(req.form.parts.len(), 1);
    assert_eq!(req.form.parts[0].name, "file");
    match &req.form.parts[0].data {
        PartData::File(f) => {
            assert_eq!(f.filename, "test.wav");
            assert_eq!(f.mime, "audio/wav");
        },
        PartData::Text(_) => panic!("the upload form must carry the file"),
    }
}

#[test]
fn edit_image_form_parts_and_defaults() {
    let client = Client::new("http://localhost:8080").unwrap();
    let image = LocalFile::from_path("img/dog.png", vec![9, 9]).unwrap();
    let req = client
        .edit_image_request(image, "A lovely dog", &ImageEditParams::default(), None, None)
        .unwrap();
    assert_eq!(req.url, "http://localhost:8080/v1/images/edits");
    let parts = &req.form.parts;
    let names: Vec<&str> = parts.iter().map(|p| p.name.as_str()).collect();
    assert_eq!(
        names,
        vec![
            "file",
            "prompt",
            "model",
            "n",
            "response_format",
            "cfg_scale",
            "sample_method",
            "steps",
            "height",
            "width",
            "control_strength",
            "seed",
            "strength",
            "scheduler",
            "apply_canny_preprocessor",
            "style_ratio",
        ]
    );
    match &parts[0].data {
        PartData::File(f) => assert_eq!(f.mime, "image/png"),
        PartData::Text(_) => panic!("the first part must be the image"),
    }
    assert_eq!(text_value(&parts[1].data), "A lovely dog");
    assert_eq!(text_value(&parts[3].data), "1");
    assert_eq!(text_value(&parts[4].data), "url");
    assert_eq!(text_value(&parts[5].data), "7");
    assert_eq!(text_value(&parts[6].data), "euler_a");
    assert_eq!(text_value(&parts[7].data), "20");
    assert_eq!(text_value(&parts[8].data), "512");
    assert_eq!(text_value(&parts[9].data), "512");
    assert_eq!(text_value(&parts[10].data), "0.9");
    assert_eq!(text_value(&parts[11].data), "42");
    assert_eq!(text_value(&parts[12].data), "0.75");
    assert_eq!(text_value(&parts[13].data), "discrete");
    assert_eq!(text_value(&parts[14].data), "false");
    assert_eq!(text_value(&parts[15].data), "0.2");
}

#[test]
fn edit_image_with_mask_and_control_image() {
    let client = Client::new("http://localhost:8080").unwrap();
    let image = LocalFile::from_path("img/dog.png", vec![1]).unwrap();
    let mask = LocalFile::from_path("img/mask.png", vec![2]).unwrap();
    let control = LocalFile::from_path("img/control.jpg", vec![3]).unwrap();
    let req = client
        .edit_image_request(
            image,
            "edit",
            &ImageEditParams::default(),
            Some(mask),
            Some(control),
        )
        .unwrap();
    let parts = &req.form.parts;
    assert_eq!(parts.len(), 18);
    assert_eq!(parts[16].name, "mask");
    assert_eq!(parts[17].name, "control_image");
    match &parts[17].data {
        PartData::File(f) => assert_eq!(f.mime, "image/jpg"),
        PartData::Text(_) => panic!("the control image must be a file part"),
    }
}
