use std::cell::RefCell;
use std::collections::HashMap;
use std::path::Path;
use zest::convert::archive::create_targets;
use zest::convert::image::{flatten_onto_white, outputs, transcode};
use zest::convert::media::outcome;
use zest::convert::{dispatch, ConvertError, DispatchStep, Job, Operation};
use zest::settings::{OutputLocation, Settings};

/// An in-memory file system: path to contents. Directories are the parents
/// of stored files.
struct Disk(RefCell<HashMap<String, Vec<u8>>>);

impl Disk {
    fn new() -> Self {
        Disk(RefCell::new(HashMap::new()))
    }

    fn has(&self, path: &str) -> bool {
        self.0.borrow().contains_key(path)
    }

    fn put(&self, path: &str, bytes: Vec<u8>) {
        self.0.borrow_mut().insert(path.to_string(), bytes);
    }

    fn get(&self, path: &str) -> Option<Vec<u8>> {
        self.0.borrow().get(path).cloned()
    }
}

fn encode(output: &str, ext: &str, rgba: &[u8], width: u32, height: u32, quality: u8) -> Result<Vec<u8>, ConvertError> {
    zest::convert::image::write(output, ext, rgba, width, height, quality)
}

/// Deterministic RGBA noise, stored as PNG.
fn put_noise_png(disk: &Disk, path: &str, width: u32, height: u32) {
    let mut rgba = Vec::with_capacity((width * height * 4) as usize);
    let mut state: u32 = 0x1234_5678;
    for y in 0..height {
        for x in 0..width {
            state = state.wrapping_mul(1_664_525).wrapping_add(1_013_904_223);
            rgba.push((state >> 16) as u8);
            rgba.push(((state >> 8) ^ x.wrapping_mul(31)) as u8);
            rgba.push((state as u8) ^ y as u8);
            rgba.push(0xFF);
        }
    }
    let png = encode("noise.png", "png", &rgba, width, height, 90).expect("encode png");
    disk.put(path, png);
}

/// Runs a job the way the app does: dispatch, then perform the step.
fn run(disk: &Disk, job: &mut Job, settings: &Settings) -> Result<String, ConvertError> {
    let probe = |p: &str| disk.has(p);
    let dispatched = dispatch(job, settings, false, &probe, 0);
    match dispatched.step {
        DispatchStep::Finished(result) => result,
        DispatchStep::Media => Err(outcome(false, false, "ffmpeg.exe")),
        DispatchStep::Transcode { input, output, ext, jpeg_quality } => {
            let bytes = disk.get(&input).ok_or_else(|| {
                ConvertError::Io(format!("{input} cannot be read as an image: not found"))
            })?;
            let image = transcode(&input, &bytes)?;
            let encoded = encode(&output, &ext, &image.rgba, image.width, image.height, jpeg_quality)?;
            disk.put(&output, encoded);
            Ok(output)
        }
    }
}

#[test]
fn rejects_targets_outside_the_engine() {
    for ext in ["zip", "mp4", "json", "exe"] {
        assert!(!outputs().contains(&ext), "{ext} must not be an image output");
    }
}

#[test]
fn svg_is_input_only() {
    assert!(!outputs().contains(&"svg"));
}

#[test]
fn transparent_pixels_flatten_to_white_not_black() {
    // A fully transparent black pixel must come out white behind the alpha.
    let rgba = [0, 0, 0, 0];
    assert_eq!(flatten_onto_white(&rgba, 1, 1), [255, 255, 255]);

    // Opaque black stays black.
    let rgba = [0, 0, 0, 255];
    assert_eq!(flatten_onto_white(&rgba, 1, 1), [0, 0, 0]);

    // Half-transparent mid grey lands halfway to white.
    let rgba = [128, 128, 128, 128];
    let [r, _, _]: [u8; 3] = flatten_onto_white(&rgba, 1, 1)
        .try_into()
        .expect("3 channels");
    assert!((190..=193).contains(&r), "unexpected blend: {r}");
}

#[test]
fn flattening_ignores_a_trailing_partial_pixel() {
    let rgba = [10, 20, 30, 255, 1, 2, 3];
    assert_eq!(flatten_onto_white(&rgba, 1, 1), [10, 20, 30]);
    assert_eq!(flatten_onto_white(&[], 0, 0), Vec::<u8>::new());
}

/// The operation picks the engine; the input kind must not override it.
#[test]
fn archive_picks_the_archive_engine_for_any_input() {
    let disk = Disk::new();
    let mut job = Job::archive("photo.png", "zip");
    let error = run(&disk, &mut job, &Settings::default()).expect_err("archive engine is still a stub");
    assert!(
        error.message().contains("archive engine"),
        "unexpected error: {}",
        error.message()
    );
    let mut job = Job::archive("photo.png", "rar");
    assert!(matches!(
        run(&disk, &mut job, &Settings::default()),
        Err(ConvertError::Unsupported(_, _))
    ));
}

#[test]
fn extract_rejects_anything_but_an_archive() {
    let disk = Disk::new();
    let mut job = Job::extract("photo.png");
    let error = run(&disk, &mut job, &Settings::default()).expect_err("photo.png is not an archive");
    assert!(matches!(error, ConvertError::Unsupported(_, _)), "{}", error.message());

    let mut job = Job::extract("bundle.zip");
    let error = run(&disk, &mut job, &Settings::default()).expect_err("extraction engine is still a stub");
    assert!(
        error.message().contains("archive extraction"),
        "unexpected error: {}",
        error.message()
    );
}

#[test]
fn convert_picks_the_engine_from_the_input_kind() {
    let disk = Disk::new();
    put_noise_png(&disk, "scratch/routing.png", 4, 4);

    let mut job = Job::new("scratch/routing.png", "bmp");
    run(&disk, &mut job, &Settings::default()).expect("png converts to bmp");
    assert_eq!(job.output.as_deref(), Some("scratch/routing.bmp"));

    // "zip" is not an image output, so the image engine rejects it rather than
    // quietly packing the file.
    let mut job = Job::new("scratch/routing.png", "zip");
    let error = run(&disk, &mut job, &Settings::default()).expect_err("images do not convert to zip");
    assert!(matches!(error, ConvertError::Unsupported(_, _)), "{}", error.message());
}

#[test]
fn png_to_jpg_keeps_dimensions_and_is_a_real_jpeg() {
    let disk = Disk::new();
    put_noise_png(&disk, "png-to-jpg/noise.png", 64, 48);

    let mut job = Job::new("png-to-jpg/noise.png", "jpg");
    let output = run(&disk, &mut job, &Settings::default()).expect("png converts to jpg");
    assert_eq!(output, "png-to-jpg/noise.jpg");

    let bytes = disk.get(&output).expect("read output");
    assert_eq!(&bytes[..2], &[0xFF, 0xD8], "output is not a JPEG");
    let decoded = transcode(&output, &bytes).expect("output is readable");
    assert_eq!((decoded.width, decoded.height), (64, 48));
}

#[test]
fn every_advertised_raster_output_produces_a_readable_file() {
    let disk = Disk::new();
    put_noise_png(&disk, "raster/noise.png", 40, 24);

    for ext in ["png", "jpg", "bmp", "gif", "tiff", "webp", "ico"] {
        let mut job = Job::new("raster/noise.png", ext);
        let output = run(&disk, &mut job, &Settings::default())
            .unwrap_or_else(|e| panic!("{ext}: {}", e.message()));
        let bytes = disk.get(&output).expect("read output");
        let decoded = transcode(&output, &bytes).unwrap_or_else(|e| panic!("{ext}: {}", e.message()));
        assert!(decoded.width > 0 && decoded.height > 0, "{ext} decoded to an empty image");
    }
}

#[test]
fn jpeg_quality_setting_changes_the_encoded_size() {
    let disk = Disk::new();
    put_noise_png(&disk, "quality/noise.png", 96, 96);

    let low = Settings { jpeg_quality: 5, ..Settings::default() };
    let high = Settings { jpeg_quality: 98, ..Settings::default() };

    let mut job = Job::new("quality/noise.png", "jpg");
    let low_out = run(&disk, &mut job, &low).expect("low quality encode");
    let mut job = Job::new("quality/noise.png", "jpg");
    let high_out = run(&disk, &mut job, &high).expect("high quality encode");

    let low_len = disk.get(&low_out).expect("low out").len();
    let high_len = disk.get(&high_out).expect("high out").len();
    assert!(high_len > low_len, "quality had no effect: q5={low_len}B q98={high_len}B");
}

#[test]
fn collision_numbering_keeps_the_first_output_intact() {
    let disk = Disk::new();
    put_noise_png(&disk, "collision/noise.png", 32, 32);
    let decoy = b"not really a jpeg".to_vec();
    disk.put("collision/noise.jpg", decoy.clone());

    let mut job = Job::new("collision/noise.png", "jpg");
    let output = run(&disk, &mut job, &Settings::default()).expect("collision-safe convert");
    assert_eq!(output, "collision/noise (1).jpg");
    assert_eq!(disk.get("collision/noise.jpg").expect("decoy kept"), decoy);
}

#[test]
fn heic_says_why_instead_of_failing_silently() {
    let disk = Disk::new();
    put_noise_png(&disk, "heic/noise.png", 16, 16);

    let mut job = Job::new("heic/noise.png", "heic");
    let error = run(&disk, &mut job, &Settings::default()).expect_err("heic needs HEVC decoding");
    assert!(error.message().contains("HEVC"), "{}", error.message());
    assert!(!disk.has("heic/noise.heic"));
}

#[test]
fn pdf_is_reported_as_the_text_engine_s_job() {
    let disk = Disk::new();
    put_noise_png(&disk, "pdf/noise.png", 16, 16);

    let mut job = Job::new("pdf/noise.png", "pdf");
    let error = run(&disk, &mut job, &Settings::default()).expect_err("pdf is not an image output");
    assert!(matches!(error, ConvertError::Unsupported(_, _)), "{}", error.message());
    assert!(!disk.has("pdf/noise.pdf"));
}

#[test]
fn unreadable_input_reports_the_path() {
    let disk = Disk::new();
    disk.put("unreadable/not-an-image.png", b"this is not a png".to_vec());

    let mut job = Job::new("unreadable/not-an-image.png", "jpg");
    let error = run(&disk, &mut job, &Settings::default()).expect_err("junk is not an image");
    assert!(error.message().contains("not-an-image.png"), "{}", error.message());
}

#[test]
fn a_configured_output_folder_is_honoured() {
    let disk = Disk::new();
    put_noise_png(&disk, "folder/in/noise.png", 16, 16);

    let settings = Settings {
        output: OutputLocation::Folder("folder/out".to_string()),
        ..Settings::default()
    };
    let mut job = Job::new("folder/in/noise.png", "jpg");
    let output = run(&disk, &mut job, &settings).expect("convert into the chosen folder");
    assert_eq!(Path::new(&output).parent(), Some(Path::new("folder/out")));
    assert!(disk.has(&output));
    assert!(!disk.has("folder/in/noise.jpg"));
}

#[test]
fn jobs_normalise_their_target_extension() {
    let job = Job::new("a.png", "..JPG");
    assert_eq!(job.output_ext, "jpg");
    assert_eq!(job.operation, Operation::Convert);
    assert!(job.output.is_none());
    let job = Job::archive("folder", ".Zip");
    assert_eq!(job.output_ext, "zip");
    assert_eq!(job.operation, Operation::Archive);
    let job = Job::extract("a.zip");
    assert_eq!(job.output_ext, "");
    assert_eq!(job.operation, Operation::Extract);
}

#[test]
fn media_text_and_unknown_inputs_route_to_their_engines() {
    let settings = Settings::default();
    let free = |_: &str| false;

    let mut job = Job::new("clip.mp4", "webm");
    let dispatched = dispatch(&mut job, &settings, false, &free, 0);
    assert!(matches!(dispatched.step, DispatchStep::Media));
    assert!(dispatched.warn_lossy);
    assert_eq!(job.output.as_deref(), Some("clip.webm"));

    let mut job = Job::new("notes.md", "pdf");
    let dispatched = dispatch(&mut job, &settings, false, &free, 0);
    match dispatched.step {
        DispatchStep::Finished(Err(error)) => {
            assert_eq!(error.message(), "engine not yet implemented (MVP): text engine (serde)")
        }
        other => panic!("unexpected: {other:?}"),
    }

    let mut job = Job::new("setup.EXE", "png");
    let dispatched = dispatch(&mut job, &settings, false, &free, 0);
    match dispatched.step {
        DispatchStep::Finished(Err(ConvertError::Unsupported(from, to))) => {
            assert_eq!((from.as_str(), to.as_str()), ("exe", "png"))
        }
        other => panic!("unexpected: {other:?}"),
    }

    let quiet = Settings { warn_lossy_to_lossy: false, ..Settings::default() };
    let mut job = Job::new("clip.mp4", "webm");
    assert!(!dispatch(&mut job, &quiet, false, &free, 0).warn_lossy);
}

#[test]
fn missing_ffmpeg_is_named() {
    assert_eq!(
        outcome(false, false, "C:/Zest/ffmpeg.exe").message(),
        "ffmpeg not found at C:/Zest/ffmpeg.exe"
    );
    assert!(matches!(outcome(true, false, "x"), ConvertError::NotImplemented(_)));
    assert!(matches!(outcome(false, true, "x"), ConvertError::NotImplemented(_)));
}

#[test]
fn encoders_produce_their_container_signatures() {
    let rgba = vec![255u8, 0, 0, 255, 0, 255, 0, 128, 0, 0, 255, 0, 9, 9, 9, 9];
    let png = encode("o.png", "png", &rgba, 2, 2, 90).expect("png");
    assert_eq!(&png[..4], &[0x89, b'P', b'N', b'G']);
    let bmp = encode("o.bmp", "bmp", &rgba, 2, 2, 90).expect("bmp");
    assert_eq!(&bmp[..2], b"BM");
    let gif = encode("o.gif", "gif", &rgba, 2, 2, 90).expect("gif");
    assert_eq!(&gif[..3], b"GIF");
    let webp = encode("o.webp", "webp", &rgba, 2, 2, 90).expect("webp");
    assert_eq!(&webp[..4], b"RIFF");
    let tiff = encode("o.tiff", "tiff", &rgba, 2, 2, 90).expect("tiff");
    assert!(&tiff[..2] == b"II" || &tiff[..2] == b"MM");
    let ico = encode("o.ico", "ico", &rgba, 2, 2, 90).expect("ico");
    assert_eq!(&ico[..4], &[0, 0, 1, 0]);
    let jpeg = encode("o.jpeg", "jpeg", &rgba, 2, 2, 90).expect("jpeg");
    assert_eq!(&jpeg[..2], &[0xFF, 0xD8]);
    match encode("o.xyz", "xyz", &rgba, 2, 2, 90) {
        Err(ConvertError::Unsupported(engine, ext)) => assert_eq!((engine.as_str(), ext.as_str()), ("image", "xyz")),
        other => panic!("unexpected: {other:?}"),
    }
}

#[test]
fn decoding_round_trips_pixels() {
    let rgba = vec![1u8, 2, 3, 255, 4, 5, 6, 255, 7, 8, 9, 255];
    let png = encode("o.png", "png", &rgba, 3, 1, 90).expect("png");
    let decoded = transcode("round.png", &png).expect("decodes");
    assert_eq!((decoded.width, decoded.height), (3, 1));
    assert_eq!(decoded.rgba, rgba);
    let error = transcode("junk.png", b"junk").expect_err("junk");
    assert!(error.message().starts_with("io: junk.png cannot be read as an image: "));
}

#[test]
fn the_archive_engine_accepts_exactly_the_archive_ring() {
    assert_eq!(create_targets(), zest::menu::archive_targets());
}

#[test]
fn bundled_ffmpeg_sits_in_the_zest_data_folder() {
    assert_eq!(zest::convert::media::ffmpeg_path_in(Some("/data")), "/data/Zest/ffmpeg/ffmpeg.exe");
    assert_eq!(zest::convert::media::ffmpeg_path_in(None), "ffmpeg.exe");
    assert!(zest::convert::media::ffmpeg_path().ends_with("ffmpeg.exe"));
}
