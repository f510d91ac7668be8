use lumen_frame::process::font::{render_exif_template, resolve_exif_key_name, ExifTexts};

fn sample() -> ExifTexts {
    ExifTexts {
        created_time: Some("2024/05/01 10:00:00".to_string()),
        focal_length_in35mm_film: Some(50),
        exposure_time: Some("1/250".to_string()),
        f_number: Some("1.8".to_string()),
        exposure_bias_value: Some("-1/3".to_string()),
        focal_length: Some("50".to_string()),
        make: Some("SONY".to_string()),
        ..Default::default()
    }
}

#[test]
fn caption_template_fills_known_fields() {
    let template = "{拍摄日期} {等效焦距}mm f/{光圈} {快门}s ISO{ISO} {曝光补偿}EV";
    assert_eq!(
        render_exif_template(template, &sample()),
        "2024/05/01 10:00:00 50mm f/1.8 1/250s ISO{ISO} -1/3EV"
    );
}

#[test]
fn integer_fields_are_written_in_decimal() {
    let mut exif = sample();
    exif.isospeed_ratings = Some(100);
    exif.white_balance_mode = Some(0);
    assert_eq!(render_exif_template("ISO{ISO} WB{白平衡}", &exif), "ISO100 WB0");
    assert_eq!(resolve_exif_key_name("ISO", &exif), Some("100".to_string()));
    assert_eq!(resolve_exif_key_name("等效焦距", &exif), Some("50".to_string()));
}

#[test]
fn unknown_names_and_missing_fields_are_kept_as_written() {
    let exif = sample();
    assert_eq!(render_exif_template("{Logo} {镜头型号}", &exif), "{Logo} {镜头型号}");
    assert_eq!(resolve_exif_key_name("Logo", &exif), None);
    assert_eq!(resolve_exif_key_name("镜头型号", &exif), None);
}

#[test]
fn braces_that_do_not_form_a_placeholder_are_copied() {
    let exif = sample();
    assert_eq!(render_exif_template("{}", &exif), "{}");
    assert_eq!(render_exif_template("{{品牌}}", &exif), "{SONY}");
    assert_eq!(render_exif_template("{品牌", &exif), "{品牌");
    assert_eq!(render_exif_template("品牌}", &exif), "品牌}");
    assert_eq!(render_exif_template("", &exif), "");
}

#[test]
fn test_render_exif_template() {
    let template = "{拍摄日期} {等效焦距}mm f/{光圈} {快门}s ISO{ISO} {曝光补偿}EV";
    let taken = chrono::Local::now().format("%Y/%m/%d %H:%M:%S").to_string();
    // The texts that 1/250 s, f/1.8 (18/10), -1/3 EV and 50 mm (500/10) are shown as.
    let exif_info = ExifTexts {
        created_time: Some(taken.clone()),
        focal_length_in35mm_film: Some(50),
        exposure_time: Some("1/250".to_string()),
        f_number: Some("1.8".to_string()),
        exposure_bias_value: Some("-1/3".to_string()),
        focal_length: Some("50".to_string()),
        ..Default::default()
    };
    let text = render_exif_template(template, &exif_info);
    println!("{text}");
    assert_eq!(text, format!("{taken} 50mm f/1.8 1/250s ISO{{ISO}} -1/3EV"));
}

#[test]
fn watermark_text_templates_use_the_logo_and_model_names() {
    use_text_table();
}

fn use_text_table() {
    let mut exif = sample();
    exif.model_caption = Some("α7 iv".to_string());
    assert_eq!(
        lumen_frame::process::text::render_exif_template("{Logo} {型号} {品牌} {机型} f/{光圈}", &exif),
        "SONY α7 iv {品牌} {机型} f/1.8"
    );
    assert_eq!(lumen_frame::process::text::resolve_exif_key_name("Logo", &exif), Some("SONY".to_string()));
    assert_eq!(lumen_frame::process::text::resolve_exif_key_name("型号", &exif), Some("α7 iv".to_string()));
    assert_eq!(lumen_frame::process::text::resolve_exif_key_name("品牌", &exif), None);
}
