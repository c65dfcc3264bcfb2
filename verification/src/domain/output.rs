//! Saving images to files: where a file goes and what is written there.
use vstd::prelude::*;
use crate::codec::{base64_decode, base64_standard_decode};
use crate::domain::errors::{image_error, image_error_text, is_image_error, DomainError, DomainResult};
use crate::infrastructure::id::{create_id, is_cuid};
use crate::text::{after_first, has_prefix, lemma_split_at_separator, owned, split_once, splits_in_two, starts_with};

verus! {

/// `dir` joined with `file` by the Unix rules of `Path::join`: an absolute
/// `file` replaces `dir`; otherwise one `/` separates them unless `dir` is
/// empty or already ends with one.
pub open spec fn join_path(dir: Seq<char>, file: Seq<char>) -> Seq<char> {
    if file.len() > 0 && file[0] == '/' {
        file
    } else if dir.len() == 0 || dir.last() == '/' {
        dir + file
    } else {
        dir + seq!['/'] + file
    }
}

/// The name of a saved image: the prefix, `_`, the identifier and `.png`.
pub open spec fn image_file_name(prefix: Seq<char>, id: Seq<char>) -> Seq<char> {
    prefix + "_"@ + id + ".png"@
}

/// What saving an image does.
#[derive(Debug, Clone)]
pub enum SaveAction {
    /// Writes these decoded bytes.
    Write(Vec<u8>),
    /// Downloads the image from this URL and writes what comes back.
    Download(String),
}

/// Where an image is saved, and how.
#[derive(Debug, Clone)]
pub struct SavePlan {
    pub path: String,
    pub action: SaveAction,
}

/// `result` is how `data_or_url` is saved under `dir` with file name prefix
/// `prefix` and identifier `id`: a `data:image/` URL holding exactly one comma
/// is decoded from what follows the comma; an `http` URL is downloaded; other
/// data is refused.
pub open spec fn is_save_plan(
    result: DomainResult<SavePlan>,
    data_or_url: Seq<char>,
    dir: Seq<char>,
    prefix: Seq<char>,
    id: Seq<char>,
) -> bool {
    let path = join_path(dir, image_file_name(prefix, id));
    if has_prefix(data_or_url, "data:image/"@) {
        if !splits_in_two(data_or_url, ',') {
            result matches Err(e) && is_image_error(e, "Invalid data URL format"@)
        } else {
            match base64_standard_decode(after_first(data_or_url, ',')->0) {
                Ok(bytes) => result matches Ok(plan) && plan.path@ == path && (plan.action matches SaveAction::Write(b) && b@ == bytes),
                Err(m) => result matches Err(e) && is_image_error(e, "Base64 decoing error: "@ + m),
            }
        }
    } else if has_prefix(data_or_url, "http"@) {
        result matches Ok(plan) && plan.path@ == path && (plan.action matches SaveAction::Download(u) && u@ == data_or_url)
    } else {
        result matches Err(e) && is_image_error(e, "Unsupported image data format"@)
    }
}

/// Law: a PNG data URL of base64 text (which holds no comma) is saved by
/// decoding that same text.
pub proof fn law_png_data_url_saved(b64: Seq<char>)
    requires
        !b64.contains(','),
    ensures
        has_prefix("data:image/png;base64,"@ + b64, "data:image/"@),
        splits_in_two("data:image/png;base64,"@ + b64, ','),
        after_first("data:image/png;base64,"@ + b64, ',') == Some(b64),
{
    reveal_strlit("data:image/png;base64,");
    reveal_strlit("data:image/");
    let head = seq!['d', 'a', 't', 'a', ':', 'i', 'm', 'a', 'g', 'e', '/', 'p', 'n', 'g', ';', 'b', 'a', 's', 'e', '6', '4'];
    let url = "data:image/png;base64,"@ + b64;
    assert(url =~= head + seq![','] + b64);
    assert(url.subrange(0, 11) =~= "data:image/"@);
    lemma_split_at_separator(head, b64, ',');
}

/// Joins a directory and a file name by the Unix rules of `Path::join`.
pub fn join(dir: &str, file: &str) -> (path: String)
    ensures
        path@ == join_path(dir@, file@),
{
    proof {
        reveal_strlit("/");
        assert("/"@ =~= seq!['/']);
        if file@.len() > 0 {
            assert(file@.subrange(0, 1) =~= seq![file@[0]]);
        }
    }
    if starts_with(file, "/") {
        assert(file@.subrange(0, 1)[0] == '/');
        assert(file@[0] == '/');
        return owned(file);
    }
    let mut path = owned(dir);
    let n = dir.unicode_len();
    if n == 0 || dir.get_char(n - 1) == '/' {
        path.append(file);
        path
    } else {
        path.append("/");
        path.append(file);
        path
    }
}

/// Saves images to files.
pub struct ImageSaver;

impl ImageSaver {
    /// How `data_or_url` is saved under `output_dir`, in a file named from
    /// `prefix` and the identifier `id`.
    pub fn plan_save_with_id(data_or_url: &str, output_dir: &str, prefix: &str, id: &str) -> (plan: DomainResult<SavePlan>)
        ensures
            is_save_plan(plan, data_or_url@, output_dir@, prefix@, id@),
    {
        let mut name = owned(prefix);
        name.append("_");
        name.append(id);
        name.append(".png");
        let path = join(output_dir, name.as_str());
        if starts_with(data_or_url, "data:image/") {
            let (_, after_comma) = split_once(data_or_url, ',');
            let b64 = match after_comma {
                Some(rest) => {
                    let (_, second) = split_once(rest.as_str(), ',');
                    if second.is_some() {
                        return Err(image_error_text("Invalid data URL format"));
                    }
                    rest
                },
                None => {
                    return Err(image_error_text("Invalid data URL format"));
                },
            };
            match base64_decode(b64.as_str()) {
                Ok(bytes) => Ok(SavePlan { path, action: SaveAction::Write(bytes) }),
                Err(m) => Err(image_error("Base64 decoing error: ", m.as_str())),
            }
        } else if starts_with(data_or_url, "http") {
            Ok(SavePlan { path, action: SaveAction::Download(owned(data_or_url)) })
        } else {
            Err(image_error_text("Unsupported image data format"))
        }
    }

    /// How `data_or_url` is saved under `output_dir`, in a file named from
    /// `prefix` and a fresh identifier.
    pub fn plan_save(data_or_url: &str, output_dir: &str, prefix: &str) -> (plan: DomainResult<SavePlan>)
        ensures
            exists|id: Seq<char>| is_cuid(id) && id.len() <= 24 && is_save_plan(plan, data_or_url@, output_dir@, prefix@, id),
    {
        let id = create_id();
        ImageSaver::plan_save_with_id(data_or_url, output_dir, prefix, id.as_str())
    }

    /// The error for a download that the server answered with a failure status.
    pub fn download_failure(status: &str) -> (e: DomainError)
        ensures
            is_image_error(e, "Failed to download image: "@ + status@),
    {
        image_error("Failed to download image: ", status)
    }
}

/// Law: anything that starts with `http` (plain `http://` included) and is
/// not a `data:image/` URL is downloaded from that very URL into
/// `<dir>/<prefix>_<id>.png`.
pub proof fn law_http_urls_are_downloaded(
    result: DomainResult<SavePlan>,
    url: Seq<char>,
    dir: Seq<char>,
    prefix: Seq<char>,
    id: Seq<char>,
)
    requires
        has_prefix(url, "http"@),
        is_save_plan(result, url, dir, prefix, id),
    ensures
        result matches Ok(plan) && plan.path@ == join_path(dir, prefix + "_"@ + id + ".png"@)
            && (plan.action matches SaveAction::Download(u) && u@ == url),
{
    reveal_strlit("http");
    reveal_strlit("data:image/");
    assert(url[0] == 'h') by {
        assert(url.subrange(0, 4)[0] == "http"@[0]);
    }
    assert(!has_prefix(url, "data:image/"@)) by {
        if has_prefix(url, "data:image/"@) {
            assert(url.subrange(0, 11)[0] == "data:image/"@[0]);
        }
    }
}

} // verus!
