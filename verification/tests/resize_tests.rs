use imagix::get_image_files;
use imagix::process_resize_request;
use imagix::ImagixError;
use imagix::Mode;
use imagix::SizeOption;

fn put_image(path: &str, w: u32, h: u32, format: image::ImageFormat) {
    let img = image::DynamicImage::new_rgb8(w, h);
    img.save_with_format(path, format).unwrap();
}

fn setup_images_fixture(base: &str) {
    fs_err::create_dir_all(format!("{}/tmp/images", base)).unwrap();
    put_image(&format!("{}/tmp/images/image1.jpg", base), 1000, 500, image::ImageFormat::Jpeg);
    put_image(&format!("{}/tmp/images/image2.png", base), 300, 400, image::ImageFormat::Png);
}

#[test]
fn test_single_image_resize() {
    let base = "/tmp/imagix_single";
    setup_images_fixture(base);
    let src_folder = format!("{}/tmp/images/image1.jpg", base);
    let dest_folder = format!("{}/tmp/images/tmp/image1.png", base);

    match process_resize_request(SizeOption::Small, Mode::Single, &src_folder) {
        Ok(_) => println!("Successful resize of single image"),
        Err(e) => println!("Error in single image: {:?}", e),
    }

    assert_eq!(true, std::path::Path::new(&dest_folder).exists());
    fs_err::remove_dir_all(base).ok();
}

#[test]
fn test_multiple_image_resize() {
    let base = "/tmp/imagix_multiple";
    setup_images_fixture(base);
    let path = format!("{}/tmp/images/", base);
    let _res = process_resize_request(SizeOption::Small, Mode::All, &path);
    let destination_path1 = format!("{}/tmp/images/tmp/image1.png", base);
    let destination_path2 = format!("{}/tmp/images/tmp/image2.png", base);
    assert_eq!(true, std::path::Path::new(&destination_path1).exists());
    assert_eq!(true, std::path::Path::new(&destination_path2).exists());
    fs_err::remove_dir_all(base).ok();
}

#[test]
fn single_resize_succeeds_bounds_dimensions_and_is_idempotent() {
    let base = "/tmp/imagix_idem";
    fs_err::create_dir_all(base).unwrap();
    put_image(&format!("{}/photo.jpg", base), 1000, 500, image::ImageFormat::Jpeg);
    let src = format!("{}/photo.jpg", base);
    let out_path = format!("{}/tmp/photo.png", base);

    let res = process_resize_request(SizeOption::Small, Mode::Single, &src);
    assert!(res.is_ok(), "first run failed: {:?}", res);
    let out = image::open(&out_path).unwrap();
    assert_eq!(image::GenericImageView::dimensions(&out), (200, 100));

    let res2 = process_resize_request(SizeOption::Small, Mode::Single, &src);
    assert!(res2.is_ok(), "second run failed: {:?}", res2);
    let out2 = image::open(&out_path).unwrap();
    assert_eq!(image::GenericImageView::dimensions(&out2), (200, 100));

    let outputs = get_image_files(&format!("{}/tmp", base)).unwrap();
    assert_eq!(outputs, vec![out_path.clone()]);
    fs_err::remove_dir_all(base).ok();
}

#[test]
fn all_mode_writes_one_output_per_supported_image() {
    let base = "/tmp/imagix_batch";
    fs_err::create_dir_all(base).unwrap();
    put_image(&format!("{}/a.jpg", base), 400, 400, image::ImageFormat::Jpeg);
    put_image(&format!("{}/b.png", base), 250, 50, image::ImageFormat::Png);
    fs_err::write(format!("{}/notes.txt", base), b"not an image").unwrap();

    let res = process_resize_request(SizeOption::Small, Mode::All, base);
    assert!(res.is_ok(), "batch failed: {:?}", res);
    let mut outputs = get_image_files(&format!("{}/tmp", base)).unwrap();
    outputs.sort();
    assert_eq!(
        outputs,
        vec![format!("{}/tmp/a.png", base), format!("{}/tmp/b.png", base)]
    );
    fs_err::remove_dir_all(base).ok();
}

#[test]
fn missing_source_fails_with_no_such_file() {
    let res = process_resize_request(
        SizeOption::Medium,
        Mode::Single,
        "/tmp/imagix_absent/image4.jpg",
    );
    match res {
        Err(ImagixError::FileIOError(m)) => assert!(m.contains("No such file or directory")),
        other => panic!("expected a file error, got {:?}", other),
    }
    let res = process_resize_request(SizeOption::Small, Mode::All, "/tmp/imagix_absenttemp");
    match res {
        Err(ImagixError::FileIOError(m)) => assert!(m.contains("No such file or directory")),
        other => panic!("expected a file error, got {:?}", other),
    }
}

#[test]
fn wrong_extension_fails_and_writes_nothing() {
    let base = "/tmp/imagix_wrongfmt";
    fs_err::create_dir_all(base).unwrap();
    fs_err::write(format!("{}/some_pdf.pdf", base), b"%PDF-1.4").unwrap();

    let res = process_resize_request(
        SizeOption::Small,
        Mode::Single,
        &format!("{}/some_pdf.pdf", base),
    );
    match res {
        Err(ImagixError::UserInputError(m)) => assert!(m.contains("Invalid file format")),
        other => panic!("expected a user input error, got {:?}", other),
    }
    assert!(!std::path::Path::new(&format!("{}/tmp", base)).exists());
    fs_err::remove_dir_all(base).ok();
}

#[test]
fn unreadable_source_folder_fails_in_all_mode() {
    let base = "/tmp/imagix_notadir";
    fs_err::create_dir_all(base).unwrap();
    let plain = format!("{}/plain.txt", base);
    fs_err::write(&plain, b"plain file").unwrap();

    let res = process_resize_request(SizeOption::Small, Mode::All, &plain);
    match res {
        Err(ImagixError::UserInputError(m)) => assert_eq!(m, "Invalid source folder"),
        other => panic!("expected a user input error, got {:?}", other),
    }
    fs_err::remove_dir_all(base).ok();
}

#[test]
fn enumerator_keeps_exact_case_variants_only() {
    let base = "/tmp/imagix_enumdir";
    fs_err::create_dir_all(base).unwrap();
    fs_err::write(format!("{}/x.JPG", base), b"x").unwrap();
    fs_err::write(format!("{}/y.Jpg", base), b"y").unwrap();
    fs_err::write(format!("{}/z.png", base), b"z").unwrap();
    fs_err::write(format!("{}/note.txt", base), b"n").unwrap();

    let mut found = get_image_files(base).unwrap();
    found.sort();
    assert_eq!(found, vec![format!("{}/x.JPG", base), format!("{}/z.png", base)]);
    fs_err::remove_dir_all(base).ok();
}

#[test]
fn uppercase_entry_found_by_enumerator_fails_the_engine_gate() {
    let base = "/tmp/imagix_upper";
    fs_err::create_dir_all(base).unwrap();
    fs_err::write(format!("{}/u.JPG", base), b"never decoded").unwrap();

    let res = process_resize_request(SizeOption::Small, Mode::All, base);
    match res {
        Err(ImagixError::UserInputError(m)) => assert_eq!(m, "Invalid file format"),
        other => panic!("expected the engine to reject the extension, got {:?}", other),
    }
    fs_err::remove_dir_all(base).ok();
}

#[test]
fn corrupt_image_fails_with_resizing_error() {
    let base = "/tmp/imagix_corrupt";
    fs_err::create_dir_all(base).unwrap();
    let bad = format!("{}/bad.jpg", base);
    fs_err::write(&bad, b"these bytes are no image").unwrap();

    let res = process_resize_request(SizeOption::Large, Mode::Single, &bad);
    match res {
        Err(ImagixError::ImageResizingError(_)) => {}
        other => panic!("expected a resizing error, got {:?}", other),
    }
    fs_err::remove_dir_all(base).ok();
}
