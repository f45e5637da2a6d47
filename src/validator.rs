//! Sanity checks on a fetched image file.
use vstd::prelude::*;
use crate::text::same_text;
use crate::exif::{extension_of, path_extension};
use crate::text::{lower_of, lowercase};

verus! {

/// Verdict on a file.
#[derive(Debug, Clone, PartialEq)]
pub enum ValidationResult {
    /// The file looks like a usable image.
    Valid,
    /// The file is unusable, for the reason given.
    Invalid(String),
}

/// Mathematical picture of a [`ValidationResult`].
pub enum Verdict {
    Valid,
    Invalid(Seq<char>),
}

impl View for ValidationResult {
    type V = Verdict;

    open spec fn view(&self) -> Verdict {
        match self {
            ValidationResult::Valid => Verdict::Valid,
            ValidationResult::Invalid(m) => Verdict::Invalid(m@),
        }
    }
}

/// Smallest plausible image, in bytes.
pub const MIN_IMAGE_BYTES: u64 = 1024;

/// Largest accepted image, in bytes.
pub const MAX_IMAGE_BYTES: u64 = 52428800;

/// Lowercase extensions of accepted image formats.
pub open spec fn is_image_extension(e: Seq<char>) -> bool {
    e == "jpg"@ || e == "jpeg"@ || e == "png"@ || e == "gif"@ || e == "webp"@ || e == "bmp"@
        || e == "tiff"@ || e == "tif"@
}

/// The verdict on a file at `path` of `size` bytes (`None`: no such file).
pub open spec fn verdict(path: Seq<char>, size: Option<u64>) -> Verdict {
    match size {
        None => Verdict::Invalid("文件不存在"@),
        Some(n) => if n == 0 {
            Verdict::Invalid("文件为空"@)
        } else if extension_of(path) matches Some(e) && !is_image_extension(lower_of(e)) {
            Verdict::Invalid("不支持的文件格式: "@ + lower_of(extension_of(path)->Some_0))
        } else if n < MIN_IMAGE_BYTES {
            Verdict::Invalid("文件太小，可能已损坏"@)
        } else if n > MAX_IMAGE_BYTES {
            Verdict::Invalid("文件过大"@)
        } else {
            Verdict::Valid
        },
    }
}

/// Checks of image files.
pub struct ImageValidator;

impl ImageValidator {
    /// Judges a file from its path and its size in bytes, `None` standing
    /// for a file that does not exist.
    pub fn assess(path: &str, size: Option<u64>) -> (r: ValidationResult)
        ensures
            r@ == verdict(path@, size),
    {
        let n = match size {
            None => return ValidationResult::Invalid(String::from_str("文件不存在")),
            Some(n) => n,
        };
        if n == 0 {
            return ValidationResult::Invalid(String::from_str("文件为空"));
        }
        match path_extension(path) {
            Some(ext) => {
                let lowered = lowercase(ext.as_str());
                if !is_image_extension_exec(lowered.as_str()) {
                    let head = String::from_str("不支持的文件格式: ");
                    return ValidationResult::Invalid(head.concat(lowered.as_str()));
                }
            },
            None => {},
        }
        if n < MIN_IMAGE_BYTES {
            return ValidationResult::Invalid(String::from_str("文件太小，可能已损坏"));
        }
        if n > MAX_IMAGE_BYTES {
            return ValidationResult::Invalid(String::from_str("文件过大"));
        }
        ValidationResult::Valid
    }
}

fn is_image_extension_exec(e: &str) -> (r: bool)
    ensures
        r == is_image_extension(e@),
{
    same_text(e, "jpg") || same_text(e, "jpeg") || same_text(e, "png") || same_text(e, "gif") || same_text(e, "webp") || same_text(e, "bmp")
        || same_text(e, "tiff") || same_text(e, "tif")
}

} // verus!
