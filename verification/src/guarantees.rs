//! What holds of every plan of an export.

use crate::image::{DecodeFault, Role};
use crate::name::sanitized;
use crate::path::{joined, joined_tells_names_apart};
use crate::plan::{
    document_name, document_plan, image_file, planned, with_image, ErrorView, PlanView,
};
use vstd::prelude::*;

verus! {

/// One for an image that is present, zero for one that is absent.
pub open spec fn present(image: Option<Result<Seq<u8>, DecodeFault>>) -> nat {
    if image is Some {
        1
    } else {
        0
    }
}

/// Whether an image is absent or was decoded.
pub open spec fn usable(image: Option<Result<Seq<u8>, DecodeFault>>) -> bool {
    !(image matches Some(Err(_)))
}

/// The export folder and the sanitized name are settled by the destination
/// and the project's name: the document and the images have no part in them.
/// Two exports of one project into one destination therefore share their
/// folder.
pub proof fn folder_is_settled_by_destination_and_name(
    folder_path: Seq<char>,
    project_name: Seq<char>,
    html_content: Seq<char>,
    frontale: Option<Result<Seq<u8>, DecodeFault>>,
    laterale: Option<Result<Seq<u8>, DecodeFault>>,
    pianta: Option<Result<Seq<u8>, DecodeFault>>,
)
    ensures
        planned(folder_path, project_name, html_content, frontale, laterale, pianta).folder
            == joined(folder_path, sanitized(project_name)),
        planned(folder_path, project_name, html_content, frontale, laterale, pianta).name
            == sanitized(project_name),
{
}

/// An export with an empty project name has an empty sanitized name, and its
/// folder is the destination itself.
pub proof fn empty_name_exports_into_destination(
    folder_path: Seq<char>,
    html_content: Seq<char>,
    frontale: Option<Result<Seq<u8>, DecodeFault>>,
    laterale: Option<Result<Seq<u8>, DecodeFault>>,
    pianta: Option<Result<Seq<u8>, DecodeFault>>,
)
    ensures
        sanitized(Seq::<char>::empty()) == Seq::<char>::empty(),
        planned(
            folder_path,
            Seq::<char>::empty(),
            html_content,
            frontale,
            laterale,
            pianta,
        ).folder == folder_path,
{
    assert(sanitized(Seq::<char>::empty()) =~= Seq::<char>::empty());
    assert(joined(folder_path, Seq::<char>::empty()) =~= folder_path);
}

/// Where no payload fails to decode, the plan does not fail, and it holds the
/// document and one file for each image that is present: one file where all
/// three are absent, two where one is present.
pub proof fn one_file_for_each_image(
    folder_path: Seq<char>,
    project_name: Seq<char>,
    html_content: Seq<char>,
    frontale: Option<Result<Seq<u8>, DecodeFault>>,
    laterale: Option<Result<Seq<u8>, DecodeFault>>,
    pianta: Option<Result<Seq<u8>, DecodeFault>>,
)
    requires
        usable(frontale),
        usable(laterale),
        usable(pianta),
    ensures
        planned(folder_path, project_name, html_content, frontale, laterale, pianta).failure
            is None,
        planned(folder_path, project_name, html_content, frontale, laterale, pianta).files.len()
            == 1 + present(frontale) + present(laterale) + present(pianta),
        planned(folder_path, project_name, html_content, frontale, laterale, pianta).files[0]
            == document_plan(folder_path, project_name, html_content).files[0],
{
}

/// Where the first image is decoded and the second is not, the plan holds
/// the document and the first image, and fails on the second, whatever the
/// third is.
pub proof fn failure_keeps_earlier_files(
    folder_path: Seq<char>,
    project_name: Seq<char>,
    html_content: Seq<char>,
    bytes: Seq<u8>,
    fault: DecodeFault,
    pianta: Option<Result<Seq<u8>, DecodeFault>>,
)
    ensures
        ({
            let start = document_plan(folder_path, project_name, html_content);
            let plan = planned(
                folder_path,
                project_name,
                html_content,
                Some(Ok(bytes)),
                Some(Err(fault)),
                pianta,
            );
            &&& plan.files == start.files.push(image_file(start, Role::Frontale, bytes))
            &&& plan.failure == Some(
                ErrorView::ImageDecodeFailed { role: Role::Laterale, fault },
            )
        }),
{
}

/// The document and the three images of a project have four different names,
/// none of them empty.
pub proof fn file_names_differ(name: Seq<char>)
    ensures
        document_name().len() > 0,
        forall|role: Role| (name + #[trigger] role.suffix()).len() > 0,
        forall|role: Role| name + #[trigger] role.suffix() != document_name(),
        forall|first: Role, second: Role|
            first != second ==> name + #[trigger] first.suffix() != name
                + #[trigger] second.suffix(),
{
    reveal_strlit("viewer.html");
    reveal_strlit("_FRONTALE.png");
    reveal_strlit("_LATERALE.png");
    reveal_strlit("_PIANTA.png");
    assert forall|role: Role| name + #[trigger] role.suffix() != document_name() by {
        let file = name + role.suffix();
        assert(file.last() == 'g');
        assert(document_name().last() == 'l');
    }
    assert forall|first: Role, second: Role| first != second implies name
        + #[trigger] first.suffix() != name + #[trigger] second.suffix() by {
        let at: int = name.len() as int + 1;
        assert((name + first.suffix())[at] == first.suffix()[1]);
        assert((name + second.suffix())[at] == second.suffix()[1]);
    }
}

/// No two files of a plan have the same path: as many files are on storage
/// after an export as its plan holds.
pub proof fn paths_are_distinct(
    folder_path: Seq<char>,
    project_name: Seq<char>,
    html_content: Seq<char>,
    frontale: Option<Result<Seq<u8>, DecodeFault>>,
    laterale: Option<Result<Seq<u8>, DecodeFault>>,
    pianta: Option<Result<Seq<u8>, DecodeFault>>,
)
    ensures
        ({
            let files = planned(
                folder_path,
                project_name,
                html_content,
                frontale,
                laterale,
                pianta,
            ).files;
            forall|i: int, j: int|
                0 <= i < j < files.len() ==> (#[trigger] files[i]).path
                    != (#[trigger] files[j]).path
        }),
{
    let name = sanitized(project_name);
    let folder = joined(folder_path, name);
    file_names_differ(name);
    let document = document_name();
    let first = name + Role::Frontale.suffix();
    let second = name + Role::Laterale.suffix();
    let third = name + Role::Pianta.suffix();
    joined_tells_names_apart(folder, document, first);
    joined_tells_names_apart(folder, document, second);
    joined_tells_names_apart(folder, document, third);
    joined_tells_names_apart(folder, first, second);
    joined_tells_names_apart(folder, first, third);
    joined_tells_names_apart(folder, second, third);
}

/// The failure that the first unusable image gives, in the order frontale,
/// laterale, pianta; none where every image is usable.
pub open spec fn first_failure(
    frontale: Option<Result<Seq<u8>, DecodeFault>>,
    laterale: Option<Result<Seq<u8>, DecodeFault>>,
    pianta: Option<Result<Seq<u8>, DecodeFault>>,
) -> Option<ErrorView> {
    if let Some(Err(fault)) = frontale {
        Some(ErrorView::ImageDecodeFailed { role: Role::Frontale, fault })
    } else if let Some(Err(fault)) = laterale {
        Some(ErrorView::ImageDecodeFailed { role: Role::Laterale, fault })
    } else if let Some(Err(fault)) = pianta {
        Some(ErrorView::ImageDecodeFailed { role: Role::Pianta, fault })
    } else {
        None
    }
}

/// A plan fails where a payload does not decode, and nowhere else; its
/// failure names the first such image and carries the decoder's fault.
pub proof fn plan_fails_on_first_unusable_image(
    folder_path: Seq<char>,
    project_name: Seq<char>,
    html_content: Seq<char>,
    frontale: Option<Result<Seq<u8>, DecodeFault>>,
    laterale: Option<Result<Seq<u8>, DecodeFault>>,
    pianta: Option<Result<Seq<u8>, DecodeFault>>,
)
    ensures
        planned(folder_path, project_name, html_content, frontale, laterale, pianta).failure
            == first_failure(frontale, laterale, pianta),
        planned(folder_path, project_name, html_content, frontale, laterale, pianta).failure
            is None <==> usable(frontale) && usable(laterale) && usable(pianta),
{
}

/// Every file of a plan lies in the export folder, and the document is the
/// first of them.
pub proof fn files_lie_in_the_folder(
    folder_path: Seq<char>,
    project_name: Seq<char>,
    html_content: Seq<char>,
    frontale: Option<Result<Seq<u8>, DecodeFault>>,
    laterale: Option<Result<Seq<u8>, DecodeFault>>,
    pianta: Option<Result<Seq<u8>, DecodeFault>>,
)
    ensures
        ({
            let plan = planned(
                folder_path,
                project_name,
                html_content,
                frontale,
                laterale,
                pianta,
            );
            &&& plan.files.len() >= 1
            &&& plan.files[0].role is None
            &&& plan.files[0].path == joined(plan.folder, document_name())
            &&& forall|i: int|
                0 <= i < plan.files.len() ==> plan.folder.is_prefix_of(
                    (#[trigger] plan.files[i]).path,
                )
            &&& forall|i: int|
                1 <= i < plan.files.len() ==> (#[trigger] plan.files[i]).role is Some
        }),
{
    let name = sanitized(project_name);
    let folder = joined(folder_path, name);
    let plan = planned(folder_path, project_name, html_content, frontale, laterale, pianta);
    assert forall|segment: Seq<char>| folder.is_prefix_of(#[trigger] joined(folder, segment)) by {
        assert(joined(folder, segment).subrange(0, folder.len() as int) =~= folder);
    }
    assert forall|i: int| 0 <= i < plan.files.len() implies plan.folder.is_prefix_of(
        (#[trigger] plan.files[i]).path,
    ) by {
        let path = plan.files[i].path;
        assert(path == joined(folder, document_name()) || exists|role: Role|
            path == joined(folder, name + role.suffix()));
    }
}

/// Once a plan has failed, no image changes it.
pub proof fn failed_plan_stays(
    plan: PlanView,
    role: Role,
    image: Option<Result<Seq<u8>, DecodeFault>>,
)
    requires
        plan.failure is Some,
    ensures
        with_image(plan, role, image) == plan,
{
}

} // verus!
