use std::io::Cursor;
use std::sync::Mutex;

use imgconv::batch::{anything_to_jpg, convert_batch, convert_image, BatchState};
use imgconv::outcome::ConversionError;
use imgconv::ConvertFormat;

/// A stand-in raster for tests that exercise the engine alone.
#[derive(Clone, Copy)]
struct Raster;

fn ok_decode(_path: String) -> Result<Raster, String> {
    Ok(Raster)
}

fn ok_encode(_img: Raster, _out: String, _format: ConvertFormat) -> Result<(), String> {
    Ok(())
}

fn no_existing(_dir: String) -> Vec<String> {
    Vec::new()
}

fn ignore_progress(_done: usize, _total: usize) {}

#[test]
fn convert_image_maps_decode_failure() {
    let decode = |_p: String| -> Result<Raster, String> { Err("boom".to_string()) };
    let r = convert_image(
        &"in.jpg".to_string(),
        &"out.png".to_string(),
        ConvertFormat::Png,
        &decode,
        &ok_encode,
    );
    match r {
        Err(e) => {
            assert!(e.is_decode());
            assert_eq!(e.description(), "decode error: boom");
        }
        Ok(_) => panic!("decode failure must not be reported as success"),
    }
}

#[test]
fn convert_image_maps_encode_failure() {
    let encode = |_i: Raster, _o: String, _f: ConvertFormat| -> Result<(), String> {
        Err("disk full".to_string())
    };
    let r = convert_image(
        &"in.jpg".to_string(),
        &"out.png".to_string(),
        ConvertFormat::Png,
        &ok_decode,
        &encode,
    );
    match r {
        Err(e) => {
            assert!(!e.is_decode());
            assert_eq!(e.description(), "encode error: disk full");
        }
        Ok(_) => panic!("encode failure must not be reported as success"),
    }
}

#[test]
fn convert_image_succeeds_when_both_steps_succeed() {
    let r = convert_image(
        &"in.jpg".to_string(),
        &"out.png".to_string(),
        ConvertFormat::Png,
        &ok_decode,
        &ok_encode,
    );
    assert!(r.is_ok());
}

#[test]
fn convert_image_with_real_codec_round_trips() {
    // The codec callables here are the real image codec working in memory:
    // decode ignores the path and decodes a PNG byte buffer, encode encodes
    // into a scratch buffer.
    let mut png_bytes: Vec<u8> = Vec::new();
    image::DynamicImage::new_rgb8(4, 3)
        .write_to(&mut Cursor::new(&mut png_bytes), image::ImageFormat::Png)
        .unwrap();
    let decode = move |_p: String| -> Result<image::DynamicImage, String> {
        image::load_from_memory(&png_bytes).map_err(|e| e.to_string())
    };
    let encode = |img: image::DynamicImage, _o: String, f: ConvertFormat| -> Result<(), String> {
        let mut buf: Vec<u8> = Vec::new();
        img.write_to(&mut Cursor::new(&mut buf), f.image_format()).map_err(|e| e.to_string())
    };
    let r = convert_image(
        &"in.png".to_string(),
        &"out.bmp".to_string(),
        ConvertFormat::Bmp,
        &decode,
        &encode,
    );
    assert!(r.is_ok());
}

#[test]
fn zero_byte_input_is_a_decode_failure() {
    let decode = |_p: String| -> Result<image::DynamicImage, String> {
        image::load_from_memory(&[]).map_err(|e| e.to_string())
    };
    let encode = |img: image::DynamicImage, _o: String, f: ConvertFormat| -> Result<(), String> {
        let mut buf: Vec<u8> = Vec::new();
        img.write_to(&mut Cursor::new(&mut buf), f.image_format()).map_err(|e| e.to_string())
    };
    let r = convert_image(
        &"empty.jpg".to_string(),
        &"out.png".to_string(),
        ConvertFormat::Png,
        &decode,
        &encode,
    );
    match r {
        Err(e) => assert!(e.is_decode()),
        Ok(_) => panic!("a zero-byte file must yield a decode failure"),
    }
}

#[test]
fn anything_to_jpg_delegates_to_jpeg() {
    let seen = Mutex::new(Vec::<ConvertFormat>::new());
    let encode = |_i: Raster, _o: String, f: ConvertFormat| -> Result<(), String> {
        seen.lock().unwrap().push(f);
        Ok(())
    };
    let r = anything_to_jpg(&"x.png".to_string(), &"x.jpg".to_string(), &ok_decode, &encode);
    assert!(r.is_ok());
    assert_eq!(*seen.lock().unwrap(), vec![ConvertFormat::Jpeg]);
}

#[test]
fn batch_counts_partition_the_files() {
    let files: Vec<String> =
        vec!["a.png".into(), "bad.jpg".into(), "b.png".into(), "worse.gif".into(), "c.png".into()];
    let decode = |p: String| -> Result<Raster, String> {
        if p.starts_with("bad") || p.starts_with("worse") {
            Err("not an image".to_string())
        } else {
            Ok(Raster)
        }
    };
    let r = convert_batch(
        &files,
        ConvertFormat::Png,
        true,
        &decode,
        &ok_encode,
        &no_existing,
        &ignore_progress,
    );
    assert_eq!(r.success_count, 3);
    assert_eq!(r.failure_count, 2);
    assert_eq!(r.success_count + r.failure_count, files.len());
    assert_eq!(r.errors.len(), r.failure_count);
    assert_eq!(r.errors[0], "bad.jpg: decode error: not an image");
    assert_eq!(r.errors[1], "worse.gif: decode error: not an image");
}

#[test]
fn one_corrupt_file_does_not_affect_the_others() {
    let files: Vec<String> = vec!["good1.png".into(), "empty.jpg".into(), "good2.png".into()];
    let mut png_bytes: Vec<u8> = Vec::new();
    image::DynamicImage::new_rgb8(2, 2)
        .write_to(&mut Cursor::new(&mut png_bytes), image::ImageFormat::Png)
        .unwrap();
    let decode = move |p: String| -> Result<image::DynamicImage, String> {
        if p.starts_with("empty") {
            image::load_from_memory(&[]).map_err(|e| e.to_string())
        } else {
            image::load_from_memory(&png_bytes).map_err(|e| e.to_string())
        }
    };
    let encode = |img: image::DynamicImage, _o: String, f: ConvertFormat| -> Result<(), String> {
        let mut buf: Vec<u8> = Vec::new();
        img.write_to(&mut Cursor::new(&mut buf), f.image_format()).map_err(|e| e.to_string())
    };
    let r = convert_batch(
        &files,
        ConvertFormat::Bmp,
        true,
        &decode,
        &encode,
        &no_existing,
        &ignore_progress,
    );
    assert_eq!(r.success_count, 2);
    assert_eq!(r.failure_count, 1);
    assert_eq!(r.errors.len(), 1);
    assert!(r.errors[0].starts_with("empty.jpg: decode error: "));
}

#[test]
fn progress_is_strictly_increasing_and_reaches_total() {
    let files: Vec<String> =
        vec!["a.png".into(), "b.png".into(), "c.png".into(), "d.png".into(), "e.png".into()];
    let log = Mutex::new(Vec::<(usize, usize)>::new());
    let progress = |done: usize, total: usize| {
        log.lock().unwrap().push((done, total));
    };
    let r = convert_batch(
        &files,
        ConvertFormat::Png,
        true,
        &ok_decode,
        &ok_encode,
        &no_existing,
        &progress,
    );
    assert_eq!(r.success_count, 5);
    let log = log.into_inner().unwrap();
    assert_eq!(log.len(), 5);
    for (i, (done, total)) in log.iter().enumerate() {
        assert_eq!(*total, 5);
        if i > 0 {
            assert!(log[i - 1].0 < *done);
        }
    }
    assert_eq!(log.last().unwrap().0, 5);
}

#[test]
fn empty_batch_returns_immediately_with_zero_counts() {
    let files: Vec<String> = Vec::new();
    let log = Mutex::new(Vec::<(usize, usize)>::new());
    let progress = |done: usize, total: usize| {
        log.lock().unwrap().push((done, total));
    };
    let r = convert_batch(
        &files,
        ConvertFormat::Gif,
        false,
        &ok_decode,
        &ok_encode,
        &no_existing,
        &progress,
    );
    assert_eq!(r.success_count, 0);
    assert_eq!(r.failure_count, 0);
    assert!(r.errors.is_empty());
    for (done, _total) in log.into_inner().unwrap() {
        assert_eq!(done, 0, "an empty batch must never report progress past zero");
    }
}

#[test]
fn batch_without_overwrite_uses_fresh_names() {
    // The listing reports one earlier output for the first stem, none for
    // the second; the engine must pick the next free counter per file.
    let files: Vec<String> = vec!["p.png".into(), "q.png".into()];
    let outputs = Mutex::new(Vec::<String>::new());
    let encode = |_i: Raster, out: String, _f: ConvertFormat| -> Result<(), String> {
        outputs.lock().unwrap().push(out);
        Ok(())
    };
    let listing = |_dir: String| -> Vec<String> { vec!["p_converted_1.jpg".to_string()] };
    let r = convert_batch(
        &files,
        ConvertFormat::Jpeg,
        false,
        &ok_decode,
        &encode,
        &listing,
        &ignore_progress,
    );
    assert_eq!(r.success_count, 2);
    assert_eq!(*outputs.lock().unwrap(), vec!["p_converted_2.jpg", "q_converted_1.jpg"]);
}

#[test]
fn batch_state_partitions_processed_files() {
    let mut state = BatchState::new(3);
    state.record_success();
    state.record_failure("f.png: decode error: bad".to_string());
    state.record_success();
    assert_eq!(state.processed, 3);
    let r = state.into_result();
    assert_eq!(r.success_count, 2);
    assert_eq!(r.failure_count, 1);
    assert_eq!(r.errors, vec!["f.png: decode error: bad".to_string()]);
}

#[test]
fn error_descriptions_are_tagged_by_kind() {
    let d = ConversionError::Decode("x".to_string());
    let e = ConversionError::Encode("y".to_string());
    assert_eq!(d.description(), "decode error: x");
    assert_eq!(e.description(), "encode error: y");
    assert!(d.is_decode());
    assert!(!e.is_decode());
}
