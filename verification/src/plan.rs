//! The plan of an export: the folder to create, the files to write into it in
//! order, and the failure that ends the export once they are written.

use crate::image::{
    decode_image, decoded_payload, decoding_view, describe_fault, fault_text, DecodeFault, Role,
};
use crate::name::{sanitize_name, sanitized};
use crate::path::{join_path, joined};
use vstd::prelude::*;
use vstd::string::*;
use vstd::utf8::encode_utf8;

verus! {

/// Why an export failed.
#[derive(Clone, Debug, PartialEq, Eq)]
pub enum ExportError {
    /// The export folder could not be created.
    DirectoryCreationFailed { cause: String },
    /// A file could not be written: the document, or the image named.
    FileWriteFailed { image: Option<Role>, path: String, cause: String },
    /// The payload of `role` is not base64.
    ImageDecodeFailed { role: Role, fault: DecodeFault },
}

/// An export's failure as a mathematical value.
pub enum ErrorView {
    DirectoryCreationFailed { cause: Seq<char> },
    FileWriteFailed { image: Option<Role>, path: Seq<char>, cause: Seq<char> },
    ImageDecodeFailed { role: Role, fault: DecodeFault },
}

impl View for ExportError {
    type V = ErrorView;

    open spec fn view(&self) -> ErrorView {
        match *self {
            ExportError::DirectoryCreationFailed { cause } => ErrorView::DirectoryCreationFailed {
                cause: cause@,
            },
            ExportError::FileWriteFailed { image, path, cause } => ErrorView::FileWriteFailed {
                image,
                path: path@,
                cause: cause@,
            },
            ExportError::ImageDecodeFailed { role, fault } => ErrorView::ImageDecodeFailed {
                role,
                fault,
            },
        }
    }
}

/// The message of a failure: the words of its cause.
pub open spec fn message_of(error: ErrorView) -> Seq<char> {
    match error {
        ErrorView::DirectoryCreationFailed { cause } => cause,
        ErrorView::FileWriteFailed { cause, .. } => cause,
        ErrorView::ImageDecodeFailed { fault, .. } => fault_text(fault),
    }
}

impl ExportError {
    /// The message to show for this failure: what storage said where it
    /// refused a step, and the decoder's words where a payload is not base64.
    pub fn message(&self) -> (text: String)
        ensures
            text@ == message_of(self@),
    {
        match self {
            ExportError::DirectoryCreationFailed { cause } => cause.clone(),
            ExportError::FileWriteFailed { cause, .. } => cause.clone(),
            ExportError::ImageDecodeFailed { fault, .. } => describe_fault(*fault),
        }
    }
}

/// One file of an export.
#[derive(Clone, Debug, PartialEq, Eq)]
pub struct PlannedFile {
    /// The image that the file holds; `None` for the document.
    pub role: Option<Role>,
    /// Where the file is written.
    pub path: String,
    /// What is written, replacing what the file held before.
    pub bytes: Vec<u8>,
}

/// A planned file as a mathematical value.
pub struct FileView {
    pub role: Option<Role>,
    pub path: Seq<char>,
    pub bytes: Seq<u8>,
}

impl View for PlannedFile {
    type V = FileView;

    open spec fn view(&self) -> FileView {
        FileView { role: self.role, path: self.path@, bytes: self.bytes@ }
    }
}

/// What an export does to storage, and how it ends.
#[derive(Clone, Debug, PartialEq, Eq)]
pub struct ExportPlan {
    /// The sanitized name of the project.
    pub name: String,
    /// The export folder, created first with the folders above it.
    pub folder: String,
    /// The files to write, in this order.
    pub files: Vec<PlannedFile>,
    /// Where an image's payload could not be decoded: the failure that the
    /// export ends with, once `files` are written.
    pub failure: Option<ExportError>,
}

/// An export's plan as a mathematical value.
pub struct PlanView {
    pub name: Seq<char>,
    pub folder: Seq<char>,
    pub files: Seq<FileView>,
    pub failure: Option<ErrorView>,
}

/// The views of a sequence of planned files.
pub open spec fn file_views(files: Seq<PlannedFile>) -> Seq<FileView> {
    Seq::new(files.len(), |i: int| files[i]@)
}

/// The view of a failure that may be absent.
pub open spec fn failure_view(failure: Option<ExportError>) -> Option<ErrorView> {
    match failure {
        Some(error) => Some(error@),
        None => None,
    }
}

impl View for ExportPlan {
    type V = PlanView;

    open spec fn view(&self) -> PlanView {
        PlanView {
            name: self.name@,
            folder: self.folder@,
            files: file_views(self.files@),
            failure: failure_view(self.failure),
        }
    }
}

/// The name of the document inside the export folder.
pub open spec fn document_name() -> Seq<char> {
    "viewer.html"@
}

/// The file that the image of `role` is written to.
pub open spec fn image_file(plan: PlanView, role: Role, bytes: Seq<u8>) -> FileView {
    FileView { role: Some(role), path: joined(plan.folder, plan.name + role.suffix()), bytes }
}

/// The plan of an export that holds the document and no image yet.
pub open spec fn document_plan(
    folder_path: Seq<char>,
    project_name: Seq<char>,
    html_content: Seq<char>,
) -> PlanView {
    let name = sanitized(project_name);
    let folder = joined(folder_path, name);
    PlanView {
        name,
        folder,
        files: seq![
            FileView {
                role: None,
                path: joined(folder, document_name()),
                bytes: encode_utf8(html_content),
            },
        ],
        failure: None,
    }
}

/// The plan after the image of `role` has been looked at. A plan that has
/// failed stays as it is, and so does one whose image is absent. A decoded
/// image is one more file; a payload that does not decode is the plan's
/// failure.
pub open spec fn with_image(
    plan: PlanView,
    role: Role,
    image: Option<Result<Seq<u8>, DecodeFault>>,
) -> PlanView {
    if plan.failure is Some {
        plan
    } else {
        match image {
            None => plan,
            Some(Ok(bytes)) => PlanView {
                files: plan.files.push(image_file(plan, role, bytes)),
                ..plan
            },
            Some(Err(fault)) => PlanView {
                failure: Some(ErrorView::ImageDecodeFailed { role, fault }),
                ..plan
            },
        }
    }
}

/// The plan of an export, for what its three payloads decode to.
pub open spec fn planned(
    folder_path: Seq<char>,
    project_name: Seq<char>,
    html_content: Seq<char>,
    frontale: Option<Result<Seq<u8>, DecodeFault>>,
    laterale: Option<Result<Seq<u8>, DecodeFault>>,
    pianta: Option<Result<Seq<u8>, DecodeFault>>,
) -> PlanView {
    with_image(
        with_image(
            with_image(
                document_plan(folder_path, project_name, html_content),
                Role::Frontale,
                frontale,
            ),
            Role::Laterale,
            laterale,
        ),
        Role::Pianta,
        pianta,
    )
}

/// What a payload that may be absent decodes to.
pub open spec fn decoded_image(payload: Option<Seq<char>>) -> Option<Result<Seq<u8>, DecodeFault>> {
    match payload {
        Some(text) => Some(decoded_payload(text)),
        None => None,
    }
}

/// The view of a payload that may be absent.
pub open spec fn payload_view(payload: Option<String>) -> Option<Seq<char>> {
    match payload {
        Some(text) => Some(text@),
        None => None,
    }
}

/// The view of an image that may be absent.
pub open spec fn image_view(image: Option<Result<Vec<u8>, DecodeFault>>) -> Option<
    Result<Seq<u8>, DecodeFault>,
> {
    match image {
        Some(result) => Some(decoding_view(result)),
        None => None,
    }
}

impl ExportPlan {
    /// Starts the plan of an export: the folder under its sanitized name, and
    /// the document in it.
    pub fn start(folder_path: &str, project_name: &str, html_content: &str) -> (plan: ExportPlan)
        ensures
            plan@ == document_plan(folder_path@, project_name@, html_content@),
    {
        let name = sanitize_name(project_name);
        let folder = join_path(folder_path, name.as_str());
        let document = PlannedFile {
            role: None,
            path: join_path(folder.as_str(), "viewer.html"),
            bytes: html_content.as_bytes_vec(),
        };
        let mut files: Vec<PlannedFile> = Vec::new();
        files.push(document);
        let plan = ExportPlan { name, folder, files, failure: None };
        assert(plan@.files =~= document_plan(folder_path@, project_name@, html_content@).files);
        plan
    }

    /// Takes the image of `role` into the plan: nothing where it is absent or
    /// the plan has failed, a file where it was decoded, the plan's failure
    /// where it was not.
    pub fn add_image(&mut self, role: Role, image: Option<Result<Vec<u8>, DecodeFault>>)
        ensures
            final(self)@ == with_image(old(self)@, role, image_view(image)),
    {
        if self.failure.is_some() {
            return ;
        }
        match image {
            None => {},
            Some(Ok(bytes)) => {
                let file_name = role.file_name(self.name.as_str());
                let path = join_path(self.folder.as_str(), file_name.as_str());
                let ghost before = self.files@;
                self.files.push(PlannedFile { role: Some(role), path, bytes });
                assert(file_views(self.files@) =~= file_views(before).push(
                    image_file(old(self)@, role, bytes@),
                ));
            },
            Some(Err(fault)) => {
                self.failure = Some(ExportError::ImageDecodeFailed { role, fault });
            },
        }
    }

    /// The result of an export whose folder was created and whose files were
    /// all written: the folder, or the failure that the plan holds.
    pub fn finish(self) -> (result: Result<String, ExportError>)
        ensures
            match result {
                Ok(folder) => self@.failure is None && folder@ == self@.folder,
                Err(error) => self@.failure == Some(error@),
            },
    {
        match self.failure {
            Some(error) => Err(error),
            None => Ok(self.folder),
        }
    }
}

impl PlannedFile {
    /// The failure of an export that could not write this file.
    pub fn write_failed(&self, cause: String) -> (error: ExportError)
        ensures
            error@ == (ErrorView::FileWriteFailed {
                image: self.role,
                path: self.path@,
                cause: cause@,
            }),
    {
        ExportError::FileWriteFailed { image: self.role, path: self.path.clone(), cause }
    }
}

/// Decodes the payload of an image that may be absent.
fn decode_optional(payload: &Option<String>) -> (image: Option<Result<Vec<u8>, DecodeFault>>)
    ensures
        image_view(image) == decoded_image(payload_view(*payload)),
{
    match payload {
        Some(text) => Some(decode_image(text.as_str())),
        None => None,
    }
}

/// Plans an export: the folder named after the project, the document, and
/// each image that is present, in the order frontale, laterale, pianta, up to
/// the first payload that is not base64.
pub fn plan_export(
    folder_path: String,
    project_name: String,
    html_content: String,
    png_frontale: Option<String>,
    png_laterale: Option<String>,
    png_pianta: Option<String>,
) -> (plan: ExportPlan)
    ensures
        plan@ == planned(
            folder_path@,
            project_name@,
            html_content@,
            decoded_image(payload_view(png_frontale)),
            decoded_image(payload_view(png_laterale)),
            decoded_image(payload_view(png_pianta)),
        ),
{
    let mut plan = ExportPlan::start(
        folder_path.as_str(),
        project_name.as_str(),
        html_content.as_str(),
    );
    if plan.failure.is_none() {
        plan.add_image(Role::Frontale, decode_optional(&png_frontale));
    }
    if plan.failure.is_none() {
        plan.add_image(Role::Laterale, decode_optional(&png_laterale));
    }
    if plan.failure.is_none() {
        plan.add_image(Role::Pianta, decode_optional(&png_pianta));
    }
    plan
}

} // verus!
