//! Photos: handing an image file to the sidecar, and uploading the record
//! that comes back.

use crate::exchange::Decoder;
use crate::paths::{file_name, path_file_name};
use crate::request::{Command, Request};
use crate::text::{join, text_of};
use vstd::prelude::*;

verus! {

/// `serde_json::Value`: JSON that the records carry and the library never
/// reads.
#[verifier::external_type_specification]
#[verifier::external_body]
pub struct ExJsonValue(serde_json::Value);

/// `clone` of a JSON value. Nothing is stated of the clone.
pub assume_specification[ <serde_json::Value as Clone>::clone ](
    value: &serde_json::Value,
) -> serde_json::Value
;

/// Name of the form part that carries the image file.
pub const FILE_PART: &'static str = "file";

/// Media type that the image file is announced with.
pub const IMAGE_MIME: &'static str = "image/*";

/// Name of the form field that asks for a large preview.
pub const PREVIEW_SIZE_FIELD: &'static str = "coldpreview_size";

/// Longest side of the large preview that is asked for, in pixels.
pub const PREVIEW_SIZE: &'static str = "1200";

/// Rating that an upload starts with.
pub const DEFAULT_RATING: i32 = 0;

/// Visibility of a photo where nothing else is said.
pub const DEFAULT_VISIBILITY: &'static str = "private";

/// The form that carries an image file to the sidecar, but for the bytes.
#[derive(Debug)]
pub struct ImageForm {
    /// File name of the part named [`FILE_PART`].
    pub file_name: String,
    /// Media type of that part.
    pub mime_type: String,
    /// Value of the field named [`PREVIEW_SIZE_FIELD`].
    pub preview_size: String,
}

/// An image form as contracts speak of it.
pub struct ImageFormView {
    pub file_name: Seq<char>,
    pub mime_type: Seq<char>,
    pub preview_size: Seq<char>,
}

impl View for ImageForm {
    type V = ImageFormView;

    open spec fn view(&self) -> ImageFormView {
        ImageFormView {
            file_name: self.file_name@,
            mime_type: self.mime_type@,
            preview_size: self.preview_size@,
        }
    }
}

/// One image file that a photo was read from, as the sidecar reports it.
#[derive(Debug, Clone)]
pub struct ImageFileSchema {
    pub filename: String,
    pub file_size: i64,
    pub format: Option<String>,
    pub is_raw: bool,
    pub local_storage_info: Option<serde_json::Value>,
    pub imported_info: Option<serde_json::Value>,
}

/// The sidecar's record of one processed image, which is also what an
/// upload carries. `C` is the type of a coordinate; the library passes
/// coordinates on and never looks at one.
#[derive(Debug, Clone)]
pub struct PhotoCreateSchema<C> {
    /// Hash that identifies the photo.
    pub hothash: String,
    /// The small preview, which is always there.
    pub hotpreview_base64: String,
    pub hotpreview_width: i32,
    pub hotpreview_height: i32,
    /// The large preview, where one was made.
    pub coldpreview_base64: Option<String>,
    pub coldpreview_width: Option<i32>,
    pub coldpreview_height: Option<i32>,
    pub width: i32,
    pub height: i32,
    pub taken_at: Option<String>,
    pub gps_latitude: Option<C>,
    pub gps_longitude: Option<C>,
    /// All EXIF data, as a JSON object.
    pub exif_dict: serde_json::Value,
    /// The image files that the photo was read from.
    pub image_file_list: Vec<ImageFileSchema>,
    pub input_channel_id: Option<i32>,
    pub rating: Option<i32>,
    pub visibility: Option<String>,
    pub category: Option<String>,
    pub author_id: Option<i32>,
    pub stack_id: Option<i32>,
}

/// What the desktop application tracks of an image file.
#[derive(Debug)]
pub struct ImageFileCreate {
    pub filename: String,
    pub file_path: String,
    pub file_size: i64,
    pub file_format: String,
    pub local_storage_info: Option<serde_json::Value>,
    pub imported_info: Option<serde_json::Value>,
}

/// Body of an upload: the photo's record and what the upload says besides.
#[derive(Debug)]
pub struct PhotoCreateRequest<C> {
    pub photo_create_schema: PhotoCreateSchema<C>,
    pub input_channel_id: Option<i32>,
    pub image_file: Option<ImageFileCreate>,
    /// Stars, 0 to 5.
    pub rating: Option<i32>,
    pub visibility: Option<String>,
    pub author_id: Option<i32>,
    pub category: Option<String>,
}

/// The backend's record of an uploaded photo.
#[derive(Debug)]
pub struct PhotoCreateResponse<C> {
    pub id: i32,
    pub hothash: String,
    pub user_id: i32,
    pub width: i32,
    pub height: i32,
    pub taken_at: Option<String>,
    pub gps_latitude: Option<C>,
    pub gps_longitude: Option<C>,
    pub rating: i32,
    pub category: Option<String>,
    pub visibility: String,
    pub created_at: String,
    pub updated_at: Option<String>,
    /// Whether the photo was there before the upload.
    pub is_duplicate: bool,
}

/// Builds the JSON object without members, `Value::Object` of `Map::new()`.
/// Nothing is stated of the value.
#[verifier::external_body]
fn empty_object() -> (value: serde_json::Value) {
    serde_json::Value::Object(serde_json::Map::new())
}

impl ImageFileSchema {
    /// Whether the record says nothing: no name, no size, no format.
    pub open spec fn is_blank(self) -> bool {
        &&& self.filename@ == Seq::<char>::empty()
        &&& self.file_size == 0
        &&& self.format is None
        &&& !self.is_raw
        &&& self.local_storage_info is None
        &&& self.imported_info is None
    }
}

impl Default for ImageFileSchema {
    fn default() -> (record: Self)
        ensures
            record.is_blank(),
    {
        ImageFileSchema {
            filename: String::new(),
            file_size: 0,
            format: None,
            is_raw: false,
            local_storage_info: None,
            imported_info: None,
        }
    }
}

impl<C> PhotoCreateSchema<C> {
    /// Whether the record says nothing of a photo: empty texts, zero sizes,
    /// no files, and nothing where a field may be absent. Of the EXIF data
    /// this says nothing.
    pub open spec fn is_blank(self) -> bool {
        &&& self.hothash@ == Seq::<char>::empty()
        &&& self.hotpreview_base64@ == Seq::<char>::empty()
        &&& self.hotpreview_width == 0
        &&& self.hotpreview_height == 0
        &&& self.coldpreview_base64 is None
        &&& self.coldpreview_width is None
        &&& self.coldpreview_height is None
        &&& self.width == 0
        &&& self.height == 0
        &&& self.taken_at is None
        &&& self.gps_latitude is None
        &&& self.gps_longitude is None
        &&& self.image_file_list@ == Seq::<ImageFileSchema>::empty()
        &&& self.input_channel_id is None
        &&& self.rating is None
        &&& self.visibility is None
        &&& self.category is None
        &&& self.author_id is None
        &&& self.stack_id is None
    }
}

impl<C> Default for PhotoCreateSchema<C> {
    /// The blank record, with an empty JSON object for the EXIF data.
    fn default() -> (record: Self)
        ensures
            record.is_blank(),
    {
        PhotoCreateSchema {
            hothash: String::new(),
            hotpreview_base64: String::new(),
            hotpreview_width: 0,
            hotpreview_height: 0,
            coldpreview_base64: None,
            coldpreview_width: None,
            coldpreview_height: None,
            width: 0,
            height: 0,
            taken_at: None,
            gps_latitude: None,
            gps_longitude: None,
            exif_dict: empty_object(),
            image_file_list: Vec::new(),
            input_channel_id: None,
            rating: None,
            visibility: None,
            category: None,
            author_id: None,
            stack_id: None,
        }
    }
}

impl<C> PhotoCreateResponse<C> {
    /// Whether the record says nothing of a photo but that it is private
    /// and no duplicate.
    pub open spec fn is_blank(self) -> bool {
        &&& self.id == 0
        &&& self.hothash@ == Seq::<char>::empty()
        &&& self.user_id == 0
        &&& self.width == 0
        &&& self.height == 0
        &&& self.taken_at is None
        &&& self.gps_latitude is None
        &&& self.gps_longitude is None
        &&& self.rating == DEFAULT_RATING
        &&& self.category is None
        &&& self.visibility@ == DEFAULT_VISIBILITY@
        &&& self.created_at@ == Seq::<char>::empty()
        &&& self.updated_at is None
        &&& !self.is_duplicate
    }

    /// Settles whether the photo counts as a duplicate: where the backend
    /// met a conflict it does, whatever the record reports; otherwise the
    /// record stands as it was decoded.
    pub fn settle(self, decoder: Decoder) -> (record: Self)
        ensures
            record == (PhotoCreateResponse {
                is_duplicate: decoder.marks_duplicate() || self.is_duplicate,
                ..self
            }),
    {
        let is_duplicate = decoder.forces_duplicate() || self.is_duplicate;
        PhotoCreateResponse { is_duplicate, ..self }
    }
}

impl<C> Default for PhotoCreateResponse<C> {
    fn default() -> (record: Self)
        ensures
            record.is_blank(),
    {
        PhotoCreateResponse {
            id: 0,
            hothash: String::new(),
            user_id: 0,
            width: 0,
            height: 0,
            taken_at: None,
            gps_latitude: None,
            gps_longitude: None,
            rating: DEFAULT_RATING,
            category: None,
            visibility: String::from_str(DEFAULT_VISIBILITY),
            created_at: String::new(),
            updated_at: None,
            is_duplicate: false,
        }
    }
}

/// The form for a file of the given name, or the reason why there is none.
pub open spec fn form_for(name: Option<Seq<char>>) -> Result<ImageFormView, Seq<char>> {
    match name {
        Some(name) => Ok(
            ImageFormView { file_name: name, mime_type: IMAGE_MIME@, preview_size: PREVIEW_SIZE@ },
        ),
        None => Err("Invalid filename"@),
    }
}

/// A form or the reason why there is none, as contracts speak of it.
pub open spec fn form_of(form: Result<ImageForm, String>) -> Result<ImageFormView, Seq<char>> {
    match form {
        Ok(form) => Ok(form@),
        Err(message) => Err(message@),
    }
}

/// Message for an image file that could not be read.
pub fn read_file_failure(error: &str) -> (message: String)
    ensures
        message@ == "Failed to read file: "@ + error@,
{
    join("Failed to read file: ", error)
}

/// Message for a form part that did not take its media type.
pub fn mime_failure(error: &str) -> (message: String)
    ensures
        message@ == "Failed to set mime type: "@ + error@,
{
    join("Failed to set mime type: ", error)
}

/// Builds the form for an image file from its file name, if it has one.
pub fn image_form(name: Option<String>) -> (form: Result<ImageForm, String>)
    ensures
        form_of(form) == form_for(text_of(name)),
{
    match name {
        Some(file_name) => Ok(
            ImageForm {
                file_name,
                mime_type: String::from_str(IMAGE_MIME),
                preview_size: String::from_str(PREVIEW_SIZE),
            },
        ),
        None => Err(String::from_str("Invalid filename")),
    }
}

/// Prepares the processing of an image file by the sidecar: the request and
/// the form that goes with the file's bytes. The file travels under its own
/// name, so a path without a file name is refused.
pub fn process_image_file(file_path: &str, core_api_url: &str) -> (plan: Result<
    (Request, ImageForm),
    String,
>)
    ensures
        match plan {
            Ok((request, form)) => {
                &&& request@ == Command::ProcessImage.request(core_api_url@, None)
                &&& form_for(path_file_name(file_path@)) == Ok::<ImageFormView, Seq<char>>(form@)
            },
            Err(message) => form_for(path_file_name(file_path@)) == Err::<
                ImageFormView,
                Seq<char>,
            >(message@),
        },
{
    match image_form(file_name(file_path)) {
        Ok(form) => Ok((Command::ProcessImage.prepare(core_api_url, None), form)),
        Err(message) => Err(message),
    }
}

/// Prepares the upload of a photo record into a channel: the request and
/// its body. An upload starts without stars and private, names no author
/// and no category, and attaches no record of the file, which the photo
/// record lists itself.
pub fn upload_photo_create_schema<C>(
    backend_url: &str,
    photo_create_schema: PhotoCreateSchema<C>,
    input_channel_id: i32,
    auth_token: &str,
) -> (plan: (Request, PhotoCreateRequest<C>))
    ensures
        plan.0@ == Command::UploadPhoto.request(backend_url@, Some(auth_token@)),
        plan.1.photo_create_schema == photo_create_schema,
        plan.1.input_channel_id == Some(input_channel_id),
        plan.1.image_file is None,
        plan.1.rating == Some(DEFAULT_RATING),
        text_of(plan.1.visibility) == Some(DEFAULT_VISIBILITY@),
        plan.1.author_id is None,
        plan.1.category is None,
{
    (
        Command::UploadPhoto.prepare(backend_url, Some(auth_token)),
        PhotoCreateRequest {
            photo_create_schema,
            input_channel_id: Some(input_channel_id),
            image_file: None,
            rating: Some(DEFAULT_RATING),
            visibility: Some(String::from_str(DEFAULT_VISIBILITY)),
            author_id: None,
            category: None,
        },
    )
}

} // verus!
