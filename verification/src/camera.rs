//! The camera's state, and the decisions around taking and storing photos.
use vstd::prelude::*;
use vstd::string::*;

use image::DynamicImage;

use crate::app_env::AppEnv;
use crate::text::{decimal, decimal_string, pad2, pad2_string};
use crate::zone::{civil_at_offset, civil_time, in_jiff_range, CivilTime, EnvTimeZone};

verus! {

#[verifier::external_type_specification]
#[verifier::external_body]
pub struct ExDynamicImage(image::DynamicImage);

/// The size, width then height, that `image`'s `resize` gives an image of
/// `width` by `height` pixels asked to fit within `bound_width` by
/// `bound_height` (`resize_dimensions` in `image`'s `math/utils.rs`): the
/// aspect ratio kept, rounded in floating point, at least one pixel on each
/// side. A function of the four numbers alone.
pub uninterp spec fn fitted_size(width: u32, height: u32, bound_width: u32, bound_height: u32) -> (u32, u32);

/// `image::DynamicImage::resize` with the nearest-neighbour filter, with the
/// picture's width and height read before and after. The new size is
/// `fitted_size` of the old one and the bounds, and lies within the bounds,
/// which rounding the exact ratio to the nearest pixel cannot leave;
/// nothing is claimed of the pixels. The library resizes to the web size
/// alone, so every image it makes fits 600 by 450.
#[verifier::external_body]
fn resize_nearest(picture: &DynamicImage, bound_width: u32, bound_height: u32) -> (r: (
    DynamicImage,
    u32,
    u32,
    u32,
    u32,
))
    requires
        (bound_width, bound_height) == Dimension::Small.spec_dimensions(),
    ensures
        (r.3, r.4) == fitted_size(r.1, r.2, bound_width, bound_height),
        1 <= r.3 <= bound_width,
        1 <= r.4 <= bound_height,
{
    let (width, height) = (picture.width(), picture.height());
    let resized = picture.resize(bound_width, bound_height, image::imageops::FilterType::Nearest);
    let (new_width, new_height) = (resized.width(), resized.height());
    (resized, width, height, new_width, new_height)
}

/// A photo shrunk for the web: the image, the size of the photo it came
/// from, and its own size, in pixels.
pub struct WebImage {
    pub image: DynamicImage,
    pub source_width: u32,
    pub source_height: u32,
    pub width: u32,
    pub height: u32,
}

/// Byte sizes of the last photo and of its web version.
#[derive(Clone, Copy, Debug)]
pub struct FileSize {
    pub original: usize,
    pub converted: usize,
}

impl FileSize {
    /// Both sizes zero.
    pub fn default() -> (r: Self)
        ensures
            r.original == 0,
            r.converted == 0,
    {
        FileSize { original: 0, converted: 0 }
    }
}

/// A width and height in pixels.
pub struct WH {
    pub width: u32,
    pub height: u32,
}

impl WH {
    pub fn new(width: u32, height: u32) -> (r: Self)
        ensures
            r.width == width,
            r.height == height,
    {
        WH { width, height }
    }
}

/// The two image sizes: the sensor's, and the one sent to clients.
pub enum Dimension {
    Big,
    Small,
}

impl Dimension {
    pub open spec fn spec_dimensions(&self) -> (u32, u32) {
        match self {
            Dimension::Big => (3280, 2464),
            Dimension::Small => (600, 450),
        }
    }

    /// 3280 by 2464 for the photo, 600 by 450 for the web version.
    pub fn get_dimensions(&self) -> (r: WH)
        ensures
            (r.width, r.height) == self.spec_dimensions(),
    {
        match self {
            Dimension::Big => WH::new(3280, 2464),
            Dimension::Small => WH::new(600, 450),
        }
    }
}

/// Converted photos larger than this many bytes are kept on disk.
pub const SAVE_THRESHOLD: usize = 15000;

/// The name, in the images directory, of a photo taken at `time`:
/// "2024-03-05_07-08-09.jpg".
pub open spec fn spec_photo_path(location: Seq<char>, time: CivilTime) -> Seq<char> {
    location + seq!['/'] + time.spec_date() + seq!['_'] + pad2(time.hour as nat) + seq!['-']
        + pad2(time.minute as nat) + seq!['-'] + pad2(time.second as nat) + seq![
        '.',
        'j',
        'p',
        'g',
    ]
}

/// The camera command's arguments for a photo at the given rotation.
pub open spec fn spec_photo_args(rotation: Seq<char>) -> Seq<Seq<char>> {
    seq![
        "-q"@,
        "95"@,
        "-n"@,
        "--rotation"@,
        rotation,
        "--width"@,
        decimal(3280),
        "--height"@,
        decimal(2464),
        "--immediate"@,
        "-o"@,
        "-"@,
    ]
}

/// The camera: the last photo in web form, when it was taken, and the
/// settings that photos are taken with.
pub struct Camera {
    in_use: bool,
    image_webp: Vec<u8>,
    image_timestamp: i64,
    file_size: FileSize,
    rotation: String,
    retry_count: u8,
    timezone: EnvTimeZone,
    location_images: String,
}

impl Camera {
    pub closed spec fn spec_in_use(&self) -> bool {
        self.in_use
    }

    pub closed spec fn spec_webp(&self) -> Seq<u8> {
        self.image_webp@
    }

    pub closed spec fn spec_timestamp(&self) -> i64 {
        self.image_timestamp
    }

    pub closed spec fn spec_size_converted(&self) -> usize {
        self.file_size.converted
    }

    pub closed spec fn spec_size_original(&self) -> usize {
        self.file_size.original
    }

    pub closed spec fn spec_rotation(&self) -> Seq<char> {
        self.rotation@
    }

    pub closed spec fn spec_retry_count(&self) -> u8 {
        self.retry_count
    }

    pub closed spec fn spec_location_images(&self) -> Seq<char> {
        self.location_images@
    }

    pub closed spec fn spec_timezone(&self) -> EnvTimeZone {
        self.timezone
    }

    /// The camera before its first photo: no image, both sizes zero, the
    /// rotation and images directory of the settings.
    pub fn new(app_envs: &AppEnv, now: i64) -> (r: Self)
        ensures
            !r.spec_in_use(),
            r.spec_webp().len() == 0,
            r.spec_timestamp() == now,
            r.spec_size_converted() == 0,
            r.spec_size_original() == 0,
            r.spec_rotation() == decimal(app_envs.rotation.spec_degrees() as nat),
            r.spec_retry_count() == 0,
            r.spec_location_images() == app_envs.location_images@,
            r.spec_timezone().requested() == app_envs.timezone.requested(),
            r.spec_timezone().spec_zone() == app_envs.timezone.spec_zone(),
    {
        Camera {
            in_use: false,
            image_webp: Vec::new(),
            image_timestamp: now,
            file_size: FileSize::default(),
            rotation: app_envs.rotation.to_string(),
            retry_count: 0,
            timezone: app_envs.timezone.clone(),
            location_images: app_envs.location_images.clone(),
        }
    }

    /// The arguments of the camera command for a full-size photo:
    /// quality 95, no preview, the configured rotation, 3280 by 2464,
    /// immediate, written to standard output.
    pub fn photograph_args(&self) -> (r: Vec<String>)
        ensures
            r@.map_values(|s: String| s@) == spec_photo_args(self.spec_rotation()),
    {
        let dimensions = Dimension::Big.get_dimensions();
        let mut r: Vec<String> = Vec::new();
        r.push(String::from_str("-q"));
        r.push(String::from_str("95"));
        r.push(String::from_str("-n"));
        r.push(String::from_str("--rotation"));
        r.push(self.rotation.clone());
        r.push(String::from_str("--width"));
        r.push(decimal_string(dimensions.width as u64));
        r.push(String::from_str("--height"));
        r.push(decimal_string(dimensions.height as u64));
        r.push(String::from_str("--immediate"));
        r.push(String::from_str("-o"));
        r.push(String::from_str("-"));
        assert(r@.map_values(|s: String| s@) =~= spec_photo_args(self.spec_rotation()));
        r
    }

    /// Claims the camera for a photo taken at `now`. Returns false, and
    /// changes nothing, while another photo is being taken; the caller waits
    /// and asks again.
    pub fn begin_photograph(&mut self, now: i64) -> (r: bool)
        ensures
            r == !old(self).spec_in_use(),
            r ==> final(self).spec_in_use() && final(self).spec_timestamp() == now
                && final(self).spec_webp() == old(self).spec_webp()
                && final(self).spec_size_converted() == old(self).spec_size_converted()
                && final(self).spec_size_original() == old(self).spec_size_original()
                && final(self).spec_rotation() == old(self).spec_rotation()
                && final(self).spec_retry_count() == old(self).spec_retry_count()
                && final(self).spec_location_images() == old(self).spec_location_images()
                && final(self).spec_timezone() == old(self).spec_timezone(),
            !r ==> *final(self) == *old(self),
    {
        if self.in_use {
            return false;
        }
        self.in_use = true;
        self.image_timestamp = now;
        true
    }

    /// Records the camera command's output, `None` where it could not run,
    /// and frees the camera. Returns the photo: the output, or no bytes.
    pub fn finish_photograph(&mut self, output: Option<Vec<u8>>) -> (r: Vec<u8>)
        ensures
            r@ == match output {
                Some(bytes) => bytes@,
                None => Seq::<u8>::empty(),
            },
            !final(self).spec_in_use(),
            final(self).spec_size_original() == r@.len(),
            final(self).spec_retry_count() == 0,
            final(self).spec_timestamp() == old(self).spec_timestamp(),
            final(self).spec_webp() == old(self).spec_webp(),
            final(self).spec_size_converted() == old(self).spec_size_converted(),
            final(self).spec_rotation() == old(self).spec_rotation(),
            final(self).spec_location_images() == old(self).spec_location_images(),
            final(self).spec_timezone() == old(self).spec_timezone(),
    {
        let buffer = match output {
            Some(bytes) => bytes,
            None => Vec::new(),
        };
        self.file_size.original = buffer.len();
        self.in_use = false;
        self.retry_count = 0;
        buffer
    }

    /// The decoded photo shrunk to fit 600 by 450, its aspect ratio kept.
    pub fn web_image(picture: &DynamicImage) -> (r: WebImage)
        ensures
            (r.width, r.height) == fitted_size(
                r.source_width,
                r.source_height,
                Dimension::Small.spec_dimensions().0,
                Dimension::Small.spec_dimensions().1,
            ),
            1 <= r.width <= Dimension::Small.spec_dimensions().0,
            1 <= r.height <= Dimension::Small.spec_dimensions().1,
    {
        let dimensions = Dimension::Small.get_dimensions();
        let (image, source_width, source_height, width, height) = resize_nearest(
            picture,
            dimensions.width,
            dimensions.height,
        );
        WebImage { image, source_width, source_height, width, height }
    }

    /// Keeps the web version of the last photo, where encoding gave one;
    /// where it failed, the previous web version stays.
    pub fn store_webp(&mut self, webp: Option<Vec<u8>>)
        ensures
            match webp {
                Some(bytes) => final(self).spec_webp() == bytes@
                    && final(self).spec_size_converted() == bytes@.len(),
                None => final(self).spec_webp() == old(self).spec_webp()
                    && final(self).spec_size_converted() == old(self).spec_size_converted(),
            },
            final(self).spec_in_use() == old(self).spec_in_use(),
            final(self).spec_timestamp() == old(self).spec_timestamp(),
            final(self).spec_size_original() == old(self).spec_size_original(),
            final(self).spec_rotation() == old(self).spec_rotation(),
            final(self).spec_retry_count() == old(self).spec_retry_count(),
            final(self).spec_location_images() == old(self).spec_location_images(),
            final(self).spec_timezone() == old(self).spec_timezone(),
    {
        if let Some(bytes) = webp {
            self.file_size.converted = bytes.len();
            self.image_webp = bytes;
        }
    }

    /// The web version of the last photo.
    pub fn get_webp(&self) -> (r: &[u8])
        ensures
            r@ == self.spec_webp(),
    {
        self.image_webp.as_slice()
    }

    /// When the last photo was taken, in seconds since the Unix epoch.
    pub fn get_timestamp(&self) -> (r: i64)
        ensures
            r == self.spec_timestamp(),
    {
        self.image_timestamp
    }

    /// The byte size of the web version of the last photo.
    pub fn get_size_converted(&self) -> (r: usize)
        ensures
            r == self.spec_size_converted(),
    {
        self.file_size.converted
    }

    /// The byte size of the last photo.
    pub fn get_size_original(&self) -> (r: usize)
        ensures
            r == self.spec_size_original(),
    {
        self.file_size.original
    }

    /// The sizes of the web version and of the photo, in that order.
    pub fn get_sizes(&self) -> (r: (usize, usize))
        ensures
            r == (self.spec_size_converted(), self.spec_size_original()),
    {
        (self.get_size_converted(), self.get_size_original())
    }

    /// The file, in the images directory, for a photo taken at `time`.
    pub fn photo_file_name(location: &str, time: &CivilTime) -> (r: String)
        requires
            time.valid(),
        ensures
            r@ == spec_photo_path(location@, *time),
    {
        let mut r = String::from_str(location);
        r.append("/");
        let date = time.date_string();
        r.append(date.as_str());
        r.append("_");
        let hour = pad2_string(time.hour as u64);
        r.append(hour.as_str());
        r.append("-");
        let minute = pad2_string(time.minute as u64);
        r.append(minute.as_str());
        r.append("-");
        let second = pad2_string(time.second as u64);
        r.append(second.as_str());
        r.append(".jpg");
        proof {
            reveal_strlit("/");
            reveal_strlit("_");
            reveal_strlit("-");
            reveal_strlit(".jpg");
        }
        r
    }

    /// Where to keep the last photo on disk: in the images directory, named
    /// by the local time it was taken in the camera's zone; `None` where its
    /// web version is 15000 bytes or smaller, which a dark or failed photo
    /// gives, or where its time lies outside the years that `jiff` supports.
    pub fn save_path(&self) -> (r: Option<String>)
        ensures
            r is Some <==> self.spec_size_converted() > SAVE_THRESHOLD && in_jiff_range(
                self.spec_timestamp() as int,
            ),
            r matches Some(p) ==> exists|offset: int|
                self.spec_timezone().offset_allowed(offset) && p@ == spec_photo_path(
                    self.spec_location_images(),
                    #[trigger] civil_at_offset(self.spec_timestamp() as int, offset),
                ),
    {
        if self.get_size_converted() > SAVE_THRESHOLD {
            match civil_time(&self.timezone, self.image_timestamp) {
                Some(time) => {
                    let path = Self::photo_file_name(self.location_images.as_str(), &time);
                    proof {
                        let offset = choose|offset: int|
                            self.timezone.offset_allowed(offset) && time == #[trigger] civil_at_offset(
                                self.image_timestamp as int,
                                offset,
                            );
                        assert(path@ == spec_photo_path(
                            self.spec_location_images(),
                            civil_at_offset(self.spec_timestamp() as int, offset),
                        ));
                    }
                    Some(path)
                },
                None => None,
            }
        } else {
            None
        }
    }
}

} // verus!
