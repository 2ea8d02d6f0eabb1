//! The decisions of the upload handler: which fields of a multipart request
//! are kept, and what is sent back when a field is turned away or when the
//! uploaded file yields no nutrition facts.

use vstd::prelude::*;

verus! {

/// What every accepted content type starts with.
pub const IMAGE_PREFIX: &'static str = "image/";

/// The page sent back for a field that is no image.
pub const NOT_AN_IMAGE: &'static str = "<p>Please upload only images.</p>";

/// The page sent back when no nutrition facts could be made from the upload.
pub const UNREADABLE: &'static str = "could not read file, make sure it is a valid image!";

/// A content type names an image when it starts with `image/`.
pub open spec fn is_image_type(content_type: Seq<char>) -> bool {
    IMAGE_PREFIX@.is_prefix_of(content_type)
}

/// Tells whether a content type names an image.
pub fn is_image(content_type: &str) -> (image: bool)
    ensures
        image == is_image_type(content_type@),
{
    let length: usize = IMAGE_PREFIX.unicode_len();
    if content_type.unicode_len() < length {
        return false;
    }
    let mut at: usize = 0;
    while at < length
        invariant
            length == IMAGE_PREFIX@.len(),
            length <= content_type@.len(),
            at <= length,
            forall|i: int| 0 <= i < at ==> content_type@[i] == IMAGE_PREFIX@[i],
        decreases length - at,
    {
        if content_type.get_char(at) != IMAGE_PREFIX.get_char(at) {
            return false;
        }
        at += 1;
    }
    assert(IMAGE_PREFIX@ =~= content_type@.subrange(0, length as int));
    true
}

/// The file that an upload has gathered so far.
#[derive(Debug, Clone, PartialEq, Eq)]
pub struct Upload {
    pub file_name: String,
    pub file_data: Vec<u8>,
}

/// An upload as a name and the bytes stored under it.
pub struct UploadView {
    pub file_name: Seq<char>,
    pub file_data: Seq<u8>,
}

impl View for Upload {
    type V = UploadView;

    open spec fn view(&self) -> UploadView {
        UploadView { file_name: self.file_name@, file_data: self.file_data@ }
    }
}

impl Upload {
    /// An upload that has seen no field: an empty name and no bytes.
    pub fn new() -> (upload: Self)
        ensures
            upload@ == (UploadView { file_name: Seq::empty(), file_data: Seq::empty() }),
    {
        Upload { file_name: String::new(), file_data: Vec::new() }
    }

    /// Takes the next field of the request. An image replaces what was
    /// gathered before, and nothing is sent back. Any other field leaves the
    /// upload as it was, and the page to send back in place of an answer is
    /// returned.
    pub fn accept(&mut self, file_name: String, content_type: &str, data: Vec<u8>) -> (rejection:
        Option<String>)
        ensures
            is_image_type(content_type@) ==> rejection is None && final(self)@ == (UploadView {
                file_name: file_name@,
                file_data: data@,
            }),
            !is_image_type(content_type@) ==> final(self)@ == old(self)@ && (rejection matches Some(
                page,
            ) && page@ == NOT_AN_IMAGE@),
    {
        if is_image(content_type) {
            self.file_name = file_name;
            self.file_data = data;
            None
        } else {
            Some(String::from_str(NOT_AN_IMAGE))
        }
    }
}

/// The page that answers an upload: the fragment where one was made, and a
/// fixed message where making it failed, whatever the failure was.
pub fn answer<E>(outcome: Result<String, E>) -> (page: String)
    ensures
        match outcome {
            Ok(html) => page@ == html@,
            Err(_) => page@ == UNREADABLE@,
        },
{
    match outcome {
        Ok(html) => html,
        Err(_) => String::from_str(UNREADABLE),
    }
}

} // verus!
