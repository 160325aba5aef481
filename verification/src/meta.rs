//! Application-metadata resolution.
//!
//! Given an executable path, the icon bitmap the shell extracted for it and
//! the localized names read from its version resource, this module builds
//! the complete descriptor the consumer displays.  A shortcut path is first
//! dereferenced to its target; any other extension is refused.  A missing
//! display name falls back to the bare executable name, but a missing icon
//! fails the whole resolution: a descriptor without an icon is unusable.

use vstd::prelude::*;

use crate::icon::{get_png_base64, png_bytes_of, spec_base64, IconImage};
use crate::names::AppNames;
use crate::paths::{exe_stem, path_kind, spec_exe_stem, spec_is_exe_ext, spec_path_kind, PathKind};
use crate::WinError;

verus! {

/// The complete descriptor of an application, ready for display.
#[derive(Clone, Debug)]
pub struct AppMeta {
    pub name: String,
    pub path: String,
    pub icon_png: String,
    pub display_name: String,
    pub is_top_most: bool,
}

/// A dereferenced shell shortcut: the shortcut's own display name (from its
/// file name, not its target) and the stored target path, absent when the
/// shortcut stores none.
#[derive(Clone, Debug)]
pub struct LnkInfo {
    pub name: String,
    pub target_path: Option<String>,
}

/// Builds the plain record of a dereferenced shortcut.  The display name
/// comes from the shortcut's own file name, never from its target;
/// `raw_target` is the target text the shell read out of the shortcut, and
/// an empty text means the shortcut stores no target.
pub fn lnk_info_of(lnk_path: &str, raw_target: &str) -> (r: LnkInfo)
    ensures
        r.name@ == crate::paths::spec_file_stem(lnk_path@),
        r.target_path is None <==> raw_target@.len() == 0,
        r.target_path is Some ==> r.target_path->0@ == raw_target@,
{
    let name = crate::paths::file_stem(lnk_path);
    let target_path = if raw_target.is_empty() {
        Option::None
    } else {
        Option::Some(raw_target.to_owned())
    };
    LnkInfo { name, target_path }
}

/// The display name of an executable: its localized file description if
/// present, else its localized product name, else the bare executable name.
pub open spec fn spec_display_name(names: AppNames, fallback: Seq<char>) -> Seq<char> {
    if names.file_description is Some {
        names.file_description->0@
    } else if names.product_name is Some {
        names.product_name->0@
    } else {
        fallback
    }
}

/// What a successful resolution of `exe` must hold.
pub open spec fn spec_meta_ok(m: AppMeta, exe: Seq<char>, icon: IconImage, names: AppNames) -> bool {
    &&& m.name@ == spec_exe_stem(exe)
    &&& m.path@ == exe
    &&& m.display_name@ == spec_display_name(names, spec_exe_stem(exe))
    &&& m.icon_png@ == spec_base64(png_bytes_of(icon.width, icon.height, icon.rgba@))
    &&& m.is_top_most == false
}

/// Builds the descriptor of an executable path from the icon extracted for
/// it and its localized names.  The resolution succeeds exactly when a
/// well-formed icon is at hand: the display name falls back from file
/// description to product name to the bare name, so missing version
/// information never fails it, while a missing or malformed icon fails it
/// with an icon error.
pub fn get_app_info(path: &str, icon: Option<IconImage>, names: &AppNames) -> (r: Result<
    AppMeta,
    WinError,
>)
    ensures
        r is Ok <==> icon is Some && icon->0.wf(),
        r is Ok ==> spec_meta_ok(r->Ok_0, path@, icon->0, *names),
        r is Err ==> r->Err_0 == WinError::IconError,
{
    let ic = match icon {
        Option::Some(ic) => ic,
        Option::None => {
            return Err(WinError::IconError);
        },
    };
    let icon_png = match get_png_base64(&ic) {
        Ok(b64) => b64,
        Err(e) => {
            return Err(e);
        },
    };
    let name = exe_stem(path);
    let display_name = if let Option::Some(s) = names.file_description.as_ref() {
        s.clone()
    } else if let Option::Some(s) = names.product_name.as_ref() {
        s.clone()
    } else {
        name.clone()
    };
    Ok(
        AppMeta {
            name,
            path: path.to_owned(),
            icon_png,
            display_name,
            is_top_most: false,
        },
    )
}

/// The executable whose metadata a path asks for: the path itself for an
/// executable; the stored target for a shortcut, provided the shortcut was
/// dereferenced and its target is an executable; nothing for any other
/// extension.
pub open spec fn spec_target_executable(path: Seq<char>, lnk: Option<LnkInfo>) -> Result<
    Seq<char>,
    WinError,
> {
    match spec_path_kind(path) {
        PathKind::Executable => Result::Ok(path),
        PathKind::Shortcut => match lnk {
            Option::None => Result::Err(WinError::LinkError),
            Option::Some(l) => match l.target_path {
                Option::None => Result::Err(WinError::LinkError),
                Option::Some(t) => if spec_is_exe_ext(t@) {
                    Result::Ok(t@)
                } else {
                    Result::Err(WinError::UnsupportedTarget)
                },
            },
        },
        PathKind::Unsupported => Result::Err(WinError::UnsupportedFileType),
    }
}

/// Decides which executable a path resolves to.  `lnk` is the outcome of
/// dereferencing the path as a shortcut, `None` when dereferencing failed;
/// it is consulted only for a shortcut path.
pub fn target_executable(path: &str, lnk: &Option<LnkInfo>) -> (r: Result<String, WinError>)
    ensures
        r is Ok <==> spec_target_executable(path@, *lnk) is Ok,
        r is Ok ==> r->Ok_0@ == spec_target_executable(path@, *lnk)->Ok_0,
        r is Err ==> r->Err_0 == spec_target_executable(path@, *lnk)->Err_0,
{
    match path_kind(path) {
        PathKind::Executable => Ok(path.to_owned()),
        PathKind::Shortcut => {
            let l = match lnk.as_ref() {
                Option::Some(l) => l,
                Option::None => {
                    return Err(WinError::LinkError);
                },
            };
            let t = match l.target_path.as_ref() {
                Option::Some(t) => t,
                Option::None => {
                    return Err(WinError::LinkError);
                },
            };
            if matches!(path_kind(t.as_str()), PathKind::Executable) {
                Ok(t.clone())
            } else {
                Err(WinError::UnsupportedTarget)
            }
        },
        PathKind::Unsupported => Err(WinError::UnsupportedFileType),
    }
}

/// Resolves a path to a full application descriptor.  The path's extension
/// decides: an executable is resolved directly; a shortcut is resolved
/// through its dereferenced target, which must itself be an executable; any
/// other path is refused with an unsupported-file-type error.  `icon` and
/// `names` are the icon bitmap and localized names the shell gathered for
/// the decided target executable; once a target is decided, resolution
/// succeeds exactly when a well-formed icon is at hand.
pub fn get_app_info_by_path(
    path: &str,
    lnk: &Option<LnkInfo>,
    icon: Option<IconImage>,
    names: &AppNames,
) -> (r: Result<AppMeta, WinError>)
    ensures
        spec_target_executable(path@, *lnk) is Err ==> r is Err && r->Err_0
            == spec_target_executable(path@, *lnk)->Err_0,
        spec_target_executable(path@, *lnk) is Ok ==> {
            &&& r is Ok <==> icon is Some && icon->0.wf()
            &&& r is Ok ==> spec_meta_ok(
                r->Ok_0,
                spec_target_executable(path@, *lnk)->Ok_0,
                icon->0,
                *names,
            )
            &&& r is Err ==> r->Err_0 == WinError::IconError
        },
{
    match target_executable(path, lnk) {
        Ok(t) => get_app_info(t.as_str(), icon, names),
        Err(e) => Err(e),
    }
}

} // verus!
