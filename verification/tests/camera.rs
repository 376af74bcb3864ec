use std::time::SystemTime;

use leafcast::app_env::{AppEnv, LogLevel, Rotation};
use leafcast::camera::{Camera, Dimension, FileSize, WH};
use leafcast::zone::{civil_time, CivilTime, EnvTimeZone, FIRST_SECOND, LAST_SECOND};

fn app_env(rotation: Rotation, timezone: EnvTimeZone) -> AppEnv {
    let na = String::from("na");
    AppEnv {
        location_images: String::from("/photos"),
        location_ip_address: na.clone(),
        location_log: na.clone(),
        log_level: LogLevel::Info,
        rotation,
        start_time: SystemTime::now(),
        timezone,
        ws_address: na.clone(),
        ws_apikey: na.clone(),
        ws_password: na.clone(),
        ws_token_address: na,
    }
}

#[test]
fn dimensions() {
    let big = Dimension::Big.get_dimensions();
    assert_eq!((big.width, big.height), (3280, 2464));
    let small = Dimension::Small.get_dimensions();
    assert_eq!((small.width, small.height), (600, 450));
    let wh = WH::new(1, 2);
    assert_eq!((wh.width, wh.height), (1, 2));
    let size = FileSize::default();
    assert_eq!((size.original, size.converted), (0, 0));
}

#[test]
fn camera_photo_cycle() {
    let env = app_env(Rotation::OneEighty, EnvTimeZone::utc());
    let mut camera = Camera::new(&env, 0);
    assert_eq!(camera.get_sizes(), (0, 0));
    assert!(camera.get_webp().is_empty());
    let args = camera.photograph_args();
    assert_eq!(
        args,
        vec!["-q", "95", "-n", "--rotation", "180", "--width", "3280", "--height", "2464", "--immediate", "-o", "-"]
    );

    let taken: i64 = 86_400;
    assert!(camera.begin_photograph(taken));
    assert!(!camera.begin_photograph(90_000));
    assert_eq!(camera.get_timestamp(), taken);
    let photo = camera.finish_photograph(Some(vec![1, 2, 3]));
    assert_eq!(photo, vec![1, 2, 3]);
    assert_eq!(camera.get_size_original(), 3);
    assert!(camera.begin_photograph(taken));
    let photo = camera.finish_photograph(None);
    assert!(photo.is_empty());
    assert_eq!(camera.get_size_original(), 0);

    camera.store_webp(Some(vec![9; 20_000]));
    assert_eq!(camera.get_size_converted(), 20_000);
    assert_eq!(camera.get_webp().len(), 20_000);
    camera.store_webp(None);
    assert_eq!(camera.get_size_converted(), 20_000);
    assert_eq!(camera.save_path(), Some(String::from("/photos/1970-01-02_00-00-00.jpg")));

    camera.store_webp(Some(vec![9; 15_000]));
    assert_eq!(camera.save_path(), None);
}

#[test]
fn photo_path_in_zone() {
    let time = CivilTime { year: 2024, month: 3, day: 5, hour: 7, minute: 8, second: 9, weekday: 2 };
    assert_eq!(Camera::photo_file_name("/p", &time), "/p/2024-03-05_07-08-09.jpg");
    let zone = EnvTimeZone::new("Asia/Tokyo");
    let civil = civil_time(&zone, 1_700_000_000).unwrap();
    assert_eq!(civil, CivilTime { year: 2023, month: 11, day: 15, hour: 7, minute: 13, second: 20, weekday: 3 });
    let old = CivilTime { year: -44, month: 3, day: 15, hour: 0, minute: 0, second: 0, weekday: 1 };
    assert_eq!(old.date_string(), "-0044-03-15");
}

#[test]
fn web_image_fits_within_bounds() {
    let web = Camera::web_image(&image::DynamicImage::new_rgb8(16, 12));
    assert_eq!((web.source_width, web.source_height), (16, 12));
    assert_eq!((web.width, web.height), (600, 450));
    assert_eq!((web.image.width(), web.image.height()), (600, 450));
    let web = Camera::web_image(&image::DynamicImage::new_rgb8(10, 40));
    assert_eq!((web.width, web.height), (113, 450));
    assert_eq!((web.image.width(), web.image.height()), (113, 450));
    let web = Camera::web_image(&image::DynamicImage::new_rgb8(3280, 2464));
    assert_eq!((web.source_width, web.source_height), (3280, 2464));
    assert_eq!((web.width, web.height), (599, 450));
    let web = Camera::web_image(&image::DynamicImage::new_rgb8(600, 450));
    assert_eq!((web.width, web.height), (600, 450));
}

#[test]
fn civil_time_range_and_zone() {
    let utc = EnvTimeZone::utc();
    assert_eq!(
        civil_time(&utc, 0),
        Some(CivilTime { year: 1970, month: 1, day: 1, hour: 0, minute: 0, second: 0, weekday: 4 })
    );
    assert_eq!(
        civil_time(&utc, -1),
        Some(CivilTime { year: 1969, month: 12, day: 31, hour: 23, minute: 59, second: 59, weekday: 3 })
    );
    assert!(civil_time(&utc, LAST_SECOND).is_some());
    assert!(civil_time(&utc, FIRST_SECOND).is_some());
    assert_eq!(civil_time(&utc, LAST_SECOND + 1), None);
    assert_eq!(civil_time(&utc, FIRST_SECOND - 1), None);
    let berlin = EnvTimeZone::new("Europe/Berlin");
    assert_eq!(civil_time(&berlin, 0).unwrap().hour, 1);
}

#[test]
fn save_path_uses_zone_and_range() {
    let env = app_env(Rotation::Zero, EnvTimeZone::new("Asia/Tokyo"));
    let mut camera = Camera::new(&env, 0);
    assert!(camera.begin_photograph(1_700_000_000));
    camera.finish_photograph(None);
    camera.store_webp(Some(vec![1; 15_001]));
    assert_eq!(camera.save_path(), Some(String::from("/photos/2023-11-15_07-13-20.jpg")));
    assert!(camera.begin_photograph(LAST_SECOND + 1));
    camera.finish_photograph(None);
    assert_eq!(camera.save_path(), None);
}

#[test]
fn civil_time_in_zone_named_utc_has_no_offset() {
    let utc = EnvTimeZone::new("utc");
    assert!(utc.is_utc_zone());
    assert_eq!(utc.iana_name(), Some("UTC"));
    assert_eq!(
        civil_time(&utc, 86_399),
        Some(CivilTime { year: 1970, month: 1, day: 1, hour: 23, minute: 59, second: 59, weekday: 4 })
    );
}
