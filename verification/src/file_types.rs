//! The classification taxonomy: file categories keyed by extension, size
//! buckets keyed by byte count, and the list of system artifacts a scan
//! ignores.
//!
//! The extension table is an explicit ordered list of (category, extension
//! set) rows, matched case-insensitively and evaluated in a fixed priority
//! order. A few installer formats appear both in the Archives row and in the
//! Executables row; the Archives row is evaluated first, so those extensions
//! resolve to Archives. An extension in no row, or a name without an
//! extension, falls in Other.

use vstd::prelude::*;
use crate::strings::{case_eq, lower, spec_extension, str_eq, str_case_eq, extension_of, lemma_lower_idempotent, lemma_extension_of_lower};

verus! {

/// File categories for organization.
#[derive(Debug, Clone, PartialEq, Eq, Structural)]
pub enum FileCategory {
    Images,
    Documents,
    Videos,
    Audio,
    Archives,
    Code,
    Spreadsheets,
    Presentations,
    Executables,
    Fonts,
    Other,
}

impl FileCategory {
    /// The folder name for this category.
    pub open spec fn spec_folder_name(self) -> Seq<char> {
        match self {
            FileCategory::Images => "Images"@,
            FileCategory::Documents => "Documents"@,
            FileCategory::Videos => "Videos"@,
            FileCategory::Audio => "Audio"@,
            FileCategory::Archives => "Archives"@,
            FileCategory::Code => "Code"@,
            FileCategory::Spreadsheets => "Spreadsheets"@,
            FileCategory::Presentations => "Presentations"@,
            FileCategory::Executables => "Executables"@,
            FileCategory::Fonts => "Fonts"@,
            FileCategory::Other => "Other"@,
        }
    }

    /// Get the folder name for this category.
    pub fn folder_name(&self) -> (r: &'static str)
        ensures
            r@ == self.spec_folder_name(),
    {
        match self {
            FileCategory::Images => "Images",
            FileCategory::Documents => "Documents",
            FileCategory::Videos => "Videos",
            FileCategory::Audio => "Audio",
            FileCategory::Archives => "Archives",
            FileCategory::Code => "Code",
            FileCategory::Spreadsheets => "Spreadsheets",
            FileCategory::Presentations => "Presentations",
            FileCategory::Executables => "Executables",
            FileCategory::Fonts => "Fonts",
            FileCategory::Other => "Other",
        }
    }

    /// The emoji shown beside this category.
    pub open spec fn spec_emoji(self) -> Seq<char> {
        match self {
            FileCategory::Images => "\u{1f5bc}\u{fe0f}"@,
            FileCategory::Documents => "\u{1f4c4}"@,
            FileCategory::Videos => "\u{1f3ac}"@,
            FileCategory::Audio => "\u{1f3b5}"@,
            FileCategory::Archives => "\u{1f4e6}"@,
            FileCategory::Code => "\u{1f4bb}"@,
            FileCategory::Spreadsheets => "\u{1f4ca}"@,
            FileCategory::Presentations => "\u{1f4c8}"@,
            FileCategory::Executables => "\u{2699}\u{fe0f}"@,
            FileCategory::Fonts => "\u{1f524}"@,
            FileCategory::Other => "\u{1f4c2}"@,
        }
    }

    /// Get emoji representation for this category.
    pub fn emoji(&self) -> (r: &'static str)
        ensures
            r@ == self.spec_emoji(),
    {
        match self {
            FileCategory::Images => "\u{1f5bc}\u{fe0f}",
            FileCategory::Documents => "\u{1f4c4}",
            FileCategory::Videos => "\u{1f3ac}",
            FileCategory::Audio => "\u{1f3b5}",
            FileCategory::Archives => "\u{1f4e6}",
            FileCategory::Code => "\u{1f4bb}",
            FileCategory::Spreadsheets => "\u{1f4ca}",
            FileCategory::Presentations => "\u{1f4c8}",
            FileCategory::Executables => "\u{2699}\u{fe0f}",
            FileCategory::Fonts => "\u{1f524}",
            FileCategory::Other => "\u{1f4c2}",
        }
    }
}

/// The Images row of the extension table.
pub open spec fn is_image_ext(e: Seq<char>) -> bool {
    case_eq(e, "jpg"@)
    || case_eq(e, "jpeg"@)
    || case_eq(e, "png"@)
    || case_eq(e, "gif"@)
    || case_eq(e, "bmp"@)
    || case_eq(e, "svg"@)
    || case_eq(e, "webp"@)
    || case_eq(e, "tiff"@)
    || case_eq(e, "tif"@)
    || case_eq(e, "ico"@)
    || case_eq(e, "raw"@)
    || case_eq(e, "cr2"@)
    || case_eq(e, "nef"@)
    || case_eq(e, "arw"@)
    || case_eq(e, "dng"@)
    || case_eq(e, "psd"@)
    || case_eq(e, "ai"@)
    || case_eq(e, "eps"@)
}

fn is_image_ext_exec(e: &str) -> (r: bool)
    ensures
        r == is_image_ext(e@),
{
    str_case_eq(e, "jpg")
    || str_case_eq(e, "jpeg")
    || str_case_eq(e, "png")
    || str_case_eq(e, "gif")
    || str_case_eq(e, "bmp")
    || str_case_eq(e, "svg")
    || str_case_eq(e, "webp")
    || str_case_eq(e, "tiff")
    || str_case_eq(e, "tif")
    || str_case_eq(e, "ico")
    || str_case_eq(e, "raw")
    || str_case_eq(e, "cr2")
    || str_case_eq(e, "nef")
    || str_case_eq(e, "arw")
    || str_case_eq(e, "dng")
    || str_case_eq(e, "psd")
    || str_case_eq(e, "ai")
    || str_case_eq(e, "eps")
}

/// The Documents row of the extension table.
pub open spec fn is_document_ext(e: Seq<char>) -> bool {
    case_eq(e, "pdf"@)
    || case_eq(e, "doc"@)
    || case_eq(e, "docx"@)
    || case_eq(e, "txt"@)
    || case_eq(e, "md"@)
    || case_eq(e, "rtf"@)
    || case_eq(e, "odt"@)
    || case_eq(e, "pages"@)
    || case_eq(e, "tex"@)
    || case_eq(e, "wps"@)
    || case_eq(e, "wpd"@)
    || case_eq(e, "html"@)
    || case_eq(e, "htm"@)
    || case_eq(e, "xml"@)
    || case_eq(e, "json"@)
    || case_eq(e, "yaml"@)
    || case_eq(e, "yml"@)
    || case_eq(e, "toml"@)
}

fn is_document_ext_exec(e: &str) -> (r: bool)
    ensures
        r == is_document_ext(e@),
{
    str_case_eq(e, "pdf")
    || str_case_eq(e, "doc")
    || str_case_eq(e, "docx")
    || str_case_eq(e, "txt")
    || str_case_eq(e, "md")
    || str_case_eq(e, "rtf")
    || str_case_eq(e, "odt")
    || str_case_eq(e, "pages")
    || str_case_eq(e, "tex")
    || str_case_eq(e, "wps")
    || str_case_eq(e, "wpd")
    || str_case_eq(e, "html")
    || str_case_eq(e, "htm")
    || str_case_eq(e, "xml")
    || str_case_eq(e, "json")
    || str_case_eq(e, "yaml")
    || str_case_eq(e, "yml")
    || str_case_eq(e, "toml")
}

/// The Videos row of the extension table.
pub open spec fn is_video_ext(e: Seq<char>) -> bool {
    case_eq(e, "mp4"@)
    || case_eq(e, "avi"@)
    || case_eq(e, "mkv"@)
    || case_eq(e, "mov"@)
    || case_eq(e, "wmv"@)
    || case_eq(e, "flv"@)
    || case_eq(e, "webm"@)
    || case_eq(e, "m4v"@)
    || case_eq(e, "3gp"@)
    || case_eq(e, "mpg"@)
    || case_eq(e, "mpeg"@)
    || case_eq(e, "ogv"@)
    || case_eq(e, "f4v"@)
    || case_eq(e, "asf"@)
    || case_eq(e, "rm"@)
    || case_eq(e, "rmvb"@)
    || case_eq(e, "vob"@)
}

fn is_video_ext_exec(e: &str) -> (r: bool)
    ensures
        r == is_video_ext(e@),
{
    str_case_eq(e, "mp4")
    || str_case_eq(e, "avi")
    || str_case_eq(e, "mkv")
    || str_case_eq(e, "mov")
    || str_case_eq(e, "wmv")
    || str_case_eq(e, "flv")
    || str_case_eq(e, "webm")
    || str_case_eq(e, "m4v")
    || str_case_eq(e, "3gp")
    || str_case_eq(e, "mpg")
    || str_case_eq(e, "mpeg")
    || str_case_eq(e, "ogv")
    || str_case_eq(e, "f4v")
    || str_case_eq(e, "asf")
    || str_case_eq(e, "rm")
    || str_case_eq(e, "rmvb")
    || str_case_eq(e, "vob")
}

/// The Audio row of the extension table.
pub open spec fn is_audio_ext(e: Seq<char>) -> bool {
    case_eq(e, "mp3"@)
    || case_eq(e, "wav"@)
    || case_eq(e, "flac"@)
    || case_eq(e, "aac"@)
    || case_eq(e, "ogg"@)
    || case_eq(e, "wma"@)
    || case_eq(e, "m4a"@)
    || case_eq(e, "opus"@)
    || case_eq(e, "aiff"@)
    || case_eq(e, "au"@)
    || case_eq(e, "ra"@)
    || case_eq(e, "3ga"@)
    || case_eq(e, "amr"@)
    || case_eq(e, "awb"@)
    || case_eq(e, "dss"@)
    || case_eq(e, "dvf"@)
    || case_eq(e, "m4b"@)
    || case_eq(e, "m4p"@)
    || case_eq(e, "mmf"@)
}

fn is_audio_ext_exec(e: &str) -> (r: bool)
    ensures
        r == is_audio_ext(e@),
{
    str_case_eq(e, "mp3")
    || str_case_eq(e, "wav")
    || str_case_eq(e, "flac")
    || str_case_eq(e, "aac")
    || str_case_eq(e, "ogg")
    || str_case_eq(e, "wma")
    || str_case_eq(e, "m4a")
    || str_case_eq(e, "opus")
    || str_case_eq(e, "aiff")
    || str_case_eq(e, "au")
    || str_case_eq(e, "ra")
    || str_case_eq(e, "3ga")
    || str_case_eq(e, "amr")
    || str_case_eq(e, "awb")
    || str_case_eq(e, "dss")
    || str_case_eq(e, "dvf")
    || str_case_eq(e, "m4b")
    || str_case_eq(e, "m4p")
    || str_case_eq(e, "mmf")
}

/// The Archives row of the extension table.
pub open spec fn is_archive_ext(e: Seq<char>) -> bool {
    case_eq(e, "zip"@)
    || case_eq(e, "rar"@)
    || case_eq(e, "7z"@)
    || case_eq(e, "tar"@)
    || case_eq(e, "gz"@)
    || case_eq(e, "bz2"@)
    || case_eq(e, "xz"@)
    || case_eq(e, "z"@)
    || case_eq(e, "lzma"@)
    || case_eq(e, "cab"@)
    || case_eq(e, "iso"@)
    || case_eq(e, "dmg"@)
    || case_eq(e, "pkg"@)
    || case_eq(e, "deb"@)
    || case_eq(e, "rpm"@)
    || case_eq(e, "msi"@)
    || case_eq(e, "exe"@)
    || case_eq(e, "jar"@)
    || case_eq(e, "war"@)
}

fn is_archive_ext_exec(e: &str) -> (r: bool)
    ensures
        r == is_archive_ext(e@),
{
    str_case_eq(e, "zip")
    || str_case_eq(e, "rar")
    || str_case_eq(e, "7z")
    || str_case_eq(e, "tar")
    || str_case_eq(e, "gz")
    || str_case_eq(e, "bz2")
    || str_case_eq(e, "xz")
    || str_case_eq(e, "z")
    || str_case_eq(e, "lzma")
    || str_case_eq(e, "cab")
    || str_case_eq(e, "iso")
    || str_case_eq(e, "dmg")
    || str_case_eq(e, "pkg")
    || str_case_eq(e, "deb")
    || str_case_eq(e, "rpm")
    || str_case_eq(e, "msi")
    || str_case_eq(e, "exe")
    || str_case_eq(e, "jar")
    || str_case_eq(e, "war")
}

/// The Code row of the extension table.
pub open spec fn is_code_ext(e: Seq<char>) -> bool {
    case_eq(e, "rs"@)
    || case_eq(e, "py"@)
    || case_eq(e, "js"@)
    || case_eq(e, "ts"@)
    || case_eq(e, "java"@)
    || case_eq(e, "cpp"@)
    || case_eq(e, "c"@)
    || case_eq(e, "h"@)
    || case_eq(e, "hpp"@)
    || case_eq(e, "cs"@)
    || case_eq(e, "php"@)
    || case_eq(e, "rb"@)
    || case_eq(e, "go"@)
    || case_eq(e, "swift"@)
    || case_eq(e, "kt"@)
    || case_eq(e, "scala"@)
    || case_eq(e, "r"@)
    || case_eq(e, "m"@)
    || case_eq(e, "pl"@)
    || case_eq(e, "sh"@)
    || case_eq(e, "bash"@)
    || case_eq(e, "zsh"@)
    || case_eq(e, "fish"@)
    || case_eq(e, "ps1"@)
    || case_eq(e, "bat"@)
    || case_eq(e, "cmd"@)
    || case_eq(e, "sql"@)
    || case_eq(e, "css"@)
    || case_eq(e, "scss"@)
    || case_eq(e, "sass"@)
    || case_eq(e, "less"@)
    || case_eq(e, "vue"@)
    || case_eq(e, "jsx"@)
    || case_eq(e, "tsx"@)
    || case_eq(e, "svelte"@)
    || case_eq(e, "elm"@)
    || case_eq(e, "clj"@)
    || case_eq(e, "hs"@)
    || case_eq(e, "ml"@)
}

fn is_code_ext_exec(e: &str) -> (r: bool)
    ensures
        r == is_code_ext(e@),
{
    str_case_eq(e, "rs")
    || str_case_eq(e, "py")
    || str_case_eq(e, "js")
    || str_case_eq(e, "ts")
    || str_case_eq(e, "java")
    || str_case_eq(e, "cpp")
    || str_case_eq(e, "c")
    || str_case_eq(e, "h")
    || str_case_eq(e, "hpp")
    || str_case_eq(e, "cs")
    || str_case_eq(e, "php")
    || str_case_eq(e, "rb")
    || str_case_eq(e, "go")
    || str_case_eq(e, "swift")
    || str_case_eq(e, "kt")
    || str_case_eq(e, "scala")
    || str_case_eq(e, "r")
    || str_case_eq(e, "m")
    || str_case_eq(e, "pl")
    || str_case_eq(e, "sh")
    || str_case_eq(e, "bash")
    || str_case_eq(e, "zsh")
    || str_case_eq(e, "fish")
    || str_case_eq(e, "ps1")
    || str_case_eq(e, "bat")
    || str_case_eq(e, "cmd")
    || str_case_eq(e, "sql")
    || str_case_eq(e, "css")
    || str_case_eq(e, "scss")
    || str_case_eq(e, "sass")
    || str_case_eq(e, "less")
    || str_case_eq(e, "vue")
    || str_case_eq(e, "jsx")
    || str_case_eq(e, "tsx")
    || str_case_eq(e, "svelte")
    || str_case_eq(e, "elm")
    || str_case_eq(e, "clj")
    || str_case_eq(e, "hs")
    || str_case_eq(e, "ml")
}

/// The Spreadsheets row of the extension table.
pub open spec fn is_spreadsheet_ext(e: Seq<char>) -> bool {
    case_eq(e, "xlsx"@)
    || case_eq(e, "xls"@)
    || case_eq(e, "csv"@)
    || case_eq(e, "ods"@)
    || case_eq(e, "numbers"@)
    || case_eq(e, "tsv"@)
}

fn is_spreadsheet_ext_exec(e: &str) -> (r: bool)
    ensures
        r == is_spreadsheet_ext(e@),
{
    str_case_eq(e, "xlsx")
    || str_case_eq(e, "xls")
    || str_case_eq(e, "csv")
    || str_case_eq(e, "ods")
    || str_case_eq(e, "numbers")
    || str_case_eq(e, "tsv")
}

/// The Presentations row of the extension table.
pub open spec fn is_presentation_ext(e: Seq<char>) -> bool {
    case_eq(e, "pptx"@)
    || case_eq(e, "ppt"@)
    || case_eq(e, "odp"@)
    || case_eq(e, "key"@)
}

fn is_presentation_ext_exec(e: &str) -> (r: bool)
    ensures
        r == is_presentation_ext(e@),
{
    str_case_eq(e, "pptx")
    || str_case_eq(e, "ppt")
    || str_case_eq(e, "odp")
    || str_case_eq(e, "key")
}

/// The Executables row of the extension table.
pub open spec fn is_executable_ext(e: Seq<char>) -> bool {
    case_eq(e, "exe"@)
    || case_eq(e, "msi"@)
    || case_eq(e, "app"@)
    || case_eq(e, "deb"@)
    || case_eq(e, "rpm"@)
    || case_eq(e, "pkg"@)
    || case_eq(e, "dmg"@)
}

fn is_executable_ext_exec(e: &str) -> (r: bool)
    ensures
        r == is_executable_ext(e@),
{
    str_case_eq(e, "exe")
    || str_case_eq(e, "msi")
    || str_case_eq(e, "app")
    || str_case_eq(e, "deb")
    || str_case_eq(e, "rpm")
    || str_case_eq(e, "pkg")
    || str_case_eq(e, "dmg")
}

/// The Fonts row of the extension table.
pub open spec fn is_font_ext(e: Seq<char>) -> bool {
    case_eq(e, "ttf"@)
    || case_eq(e, "otf"@)
    || case_eq(e, "woff"@)
    || case_eq(e, "woff2"@)
    || case_eq(e, "eot"@)
}

fn is_font_ext_exec(e: &str) -> (r: bool)
    ensures
        r == is_font_ext(e@),
{
    str_case_eq(e, "ttf")
    || str_case_eq(e, "otf")
    || str_case_eq(e, "woff")
    || str_case_eq(e, "woff2")
    || str_case_eq(e, "eot")
}

/// Whether any row of the extension table lists this extension.
pub open spec fn in_extension_table(e: Seq<char>) -> bool {
    is_image_ext(e) || is_document_ext(e) || is_video_ext(e) || is_audio_ext(e)
        || is_archive_ext(e) || is_code_ext(e) || is_spreadsheet_ext(e)
        || is_presentation_ext(e) || is_executable_ext(e) || is_font_ext(e)
}

/// How many extensions the given category's row of the table lists.
pub open spec fn category_row_len(cat: FileCategory) -> nat {
    match cat {
        FileCategory::Images => 18,
        FileCategory::Documents => 18,
        FileCategory::Videos => 17,
        FileCategory::Audio => 19,
        FileCategory::Archives => 19,
        FileCategory::Code => 39,
        FileCategory::Spreadsheets => 6,
        FileCategory::Presentations => 4,
        FileCategory::Executables => 7,
        FileCategory::Fonts => 5,
        FileCategory::Other => 0,
    }
}

/// Whether the given category's row of the table lists this extension.
pub open spec fn in_category_row(cat: FileCategory, e: Seq<char>) -> bool {
    match cat {
        FileCategory::Images => is_image_ext(e),
        FileCategory::Documents => is_document_ext(e),
        FileCategory::Videos => is_video_ext(e),
        FileCategory::Audio => is_audio_ext(e),
        FileCategory::Archives => is_archive_ext(e),
        FileCategory::Code => is_code_ext(e),
        FileCategory::Spreadsheets => is_spreadsheet_ext(e),
        FileCategory::Presentations => is_presentation_ext(e),
        FileCategory::Executables => is_executable_ext(e),
        FileCategory::Fonts => is_font_ext(e),
        FileCategory::Other => false,
    }
}

/// The category an extension resolves to: the first matching row in priority
/// order, with Other when no row matches.
pub open spec fn category_of_ext(e: Seq<char>) -> FileCategory {
    if is_image_ext(e) {
        FileCategory::Images
    } else if is_document_ext(e) {
        FileCategory::Documents
    } else if is_video_ext(e) {
        FileCategory::Videos
    } else if is_audio_ext(e) {
        FileCategory::Audio
    } else if is_archive_ext(e) {
        FileCategory::Archives
    } else if is_code_ext(e) {
        FileCategory::Code
    } else if is_spreadsheet_ext(e) {
        FileCategory::Spreadsheets
    } else if is_presentation_ext(e) {
        FileCategory::Presentations
    } else if is_executable_ext(e) {
        FileCategory::Executables
    } else if is_font_ext(e) {
        FileCategory::Fonts
    } else {
        FileCategory::Other
    }
}

fn category_of_ext_exec(e: &str) -> (c: FileCategory)
    ensures
        c == category_of_ext(e@),
{
    if is_image_ext_exec(e) {
        FileCategory::Images
    } else if is_document_ext_exec(e) {
        FileCategory::Documents
    } else if is_video_ext_exec(e) {
        FileCategory::Videos
    } else if is_audio_ext_exec(e) {
        FileCategory::Audio
    } else if is_archive_ext_exec(e) {
        FileCategory::Archives
    } else if is_code_ext_exec(e) {
        FileCategory::Code
    } else if is_spreadsheet_ext_exec(e) {
        FileCategory::Spreadsheets
    } else if is_presentation_ext_exec(e) {
        FileCategory::Presentations
    } else if is_executable_ext_exec(e) {
        FileCategory::Executables
    } else if is_font_ext_exec(e) {
        FileCategory::Fonts
    } else {
        FileCategory::Other
    }
}

/// The category a file name falls in: its extension resolved through the
/// table, or Other when it has no extension.
pub open spec fn spec_classify(name: Seq<char>) -> FileCategory {
    match spec_extension(name) {
        Some(e) => category_of_ext(e),
        None => FileCategory::Other,
    }
}

/// File type classifier over the fixed extension table.
pub struct FileTypeClassifier {
}

impl FileTypeClassifier {
    /// Create a new file type classifier with the default table.
    pub fn new() -> (r: Self) {
        FileTypeClassifier {  }
    }

    /// Classify a file, given its name (the final path component), by its
    /// extension.
    pub fn classify(&self, name: &str) -> (c: FileCategory)
        ensures
            c == spec_classify(name@),
    {
        match extension_of(name) {
            Some(e) => category_of_ext_exec(e),
            None => FileCategory::Other,
        }
    }


    /// Get all extensions the table lists under a category. Other has none.
    pub fn get_extensions_for_category(&self, category: &FileCategory) -> (r: Vec<String>)
        ensures
            r@.len() == category_row_len(*category),
            forall|i: int| 0 <= i < r@.len() ==> in_category_row(*category, r@[i]@),
    {
        let mut v: Vec<String> = Vec::new();
        match category {
            FileCategory::Images => {
                v.push("jpg".to_owned());
                v.push("jpeg".to_owned());
                v.push("png".to_owned());
                v.push("gif".to_owned());
                v.push("bmp".to_owned());
                v.push("svg".to_owned());
                v.push("webp".to_owned());
                v.push("tiff".to_owned());
                v.push("tif".to_owned());
                v.push("ico".to_owned());
                v.push("raw".to_owned());
                v.push("cr2".to_owned());
                v.push("nef".to_owned());
                v.push("arw".to_owned());
                v.push("dng".to_owned());
                v.push("psd".to_owned());
                v.push("ai".to_owned());
                v.push("eps".to_owned());
            },
            FileCategory::Documents => {
                v.push("pdf".to_owned());
                v.push("doc".to_owned());
                v.push("docx".to_owned());
                v.push("txt".to_owned());
                v.push("md".to_owned());
                v.push("rtf".to_owned());
                v.push("odt".to_owned());
                v.push("pages".to_owned());
                v.push("tex".to_owned());
                v.push("wps".to_owned());
                v.push("wpd".to_owned());
                v.push("html".to_owned());
                v.push("htm".to_owned());
                v.push("xml".to_owned());
                v.push("json".to_owned());
                v.push("yaml".to_owned());
                v.push("yml".to_owned());
                v.push("toml".to_owned());
            },
            FileCategory::Videos => {
                v.push("mp4".to_owned());
                v.push("avi".to_owned());
                v.push("mkv".to_owned());
                v.push("mov".to_owned());
                v.push("wmv".to_owned());
                v.push("flv".to_owned());
                v.push("webm".to_owned());
                v.push("m4v".to_owned());
                v.push("3gp".to_owned());
                v.push("mpg".to_owned());
                v.push("mpeg".to_owned());
                v.push("ogv".to_owned());
                v.push("f4v".to_owned());
                v.push("asf".to_owned());
                v.push("rm".to_owned());
                v.push("rmvb".to_owned());
                v.push("vob".to_owned());
            },
            FileCategory::Audio => {
                v.push("mp3".to_owned());
                v.push("wav".to_owned());
                v.push("flac".to_owned());
                v.push("aac".to_owned());
                v.push("ogg".to_owned());
                v.push("wma".to_owned());
                v.push("m4a".to_owned());
                v.push("opus".to_owned());
                v.push("aiff".to_owned());
                v.push("au".to_owned());
                v.push("ra".to_owned());
                v.push("3ga".to_owned());
                v.push("amr".to_owned());
                v.push("awb".to_owned());
                v.push("dss".to_owned());
                v.push("dvf".to_owned());
                v.push("m4b".to_owned());
                v.push("m4p".to_owned());
                v.push("mmf".to_owned());
            },
            FileCategory::Archives => {
                v.push("zip".to_owned());
                v.push("rar".to_owned());
                v.push("7z".to_owned());
                v.push("tar".to_owned());
                v.push("gz".to_owned());
                v.push("bz2".to_owned());
                v.push("xz".to_owned());
                v.push("z".to_owned());
                v.push("lzma".to_owned());
                v.push("cab".to_owned());
                v.push("iso".to_owned());
                v.push("dmg".to_owned());
                v.push("pkg".to_owned());
                v.push("deb".to_owned());
                v.push("rpm".to_owned());
                v.push("msi".to_owned());
                v.push("exe".to_owned());
                v.push("jar".to_owned());
                v.push("war".to_owned());
            },
            FileCategory::Code => {
                v.push("rs".to_owned());
                v.push("py".to_owned());
                v.push("js".to_owned());
                v.push("ts".to_owned());
                v.push("java".to_owned());
                v.push("cpp".to_owned());
                v.push("c".to_owned());
                v.push("h".to_owned());
                v.push("hpp".to_owned());
                v.push("cs".to_owned());
                v.push("php".to_owned());
                v.push("rb".to_owned());
                v.push("go".to_owned());
                v.push("swift".to_owned());
                v.push("kt".to_owned());
                v.push("scala".to_owned());
                v.push("r".to_owned());
                v.push("m".to_owned());
                v.push("pl".to_owned());
                v.push("sh".to_owned());
                v.push("bash".to_owned());
                v.push("zsh".to_owned());
                v.push("fish".to_owned());
                v.push("ps1".to_owned());
                v.push("bat".to_owned());
                v.push("cmd".to_owned());
                v.push("sql".to_owned());
                v.push("css".to_owned());
                v.push("scss".to_owned());
                v.push("sass".to_owned());
                v.push("less".to_owned());
                v.push("vue".to_owned());
                v.push("jsx".to_owned());
                v.push("tsx".to_owned());
                v.push("svelte".to_owned());
                v.push("elm".to_owned());
                v.push("clj".to_owned());
                v.push("hs".to_owned());
                v.push("ml".to_owned());
            },
            FileCategory::Spreadsheets => {
                v.push("xlsx".to_owned());
                v.push("xls".to_owned());
                v.push("csv".to_owned());
                v.push("ods".to_owned());
                v.push("numbers".to_owned());
                v.push("tsv".to_owned());
            },
            FileCategory::Presentations => {
                v.push("pptx".to_owned());
                v.push("ppt".to_owned());
                v.push("odp".to_owned());
                v.push("key".to_owned());
            },
            FileCategory::Executables => {
                v.push("exe".to_owned());
                v.push("msi".to_owned());
                v.push("app".to_owned());
                v.push("deb".to_owned());
                v.push("rpm".to_owned());
                v.push("pkg".to_owned());
                v.push("dmg".to_owned());
            },
            FileCategory::Fonts => {
                v.push("ttf".to_owned());
                v.push("otf".to_owned());
                v.push("woff".to_owned());
                v.push("woff2".to_owned());
                v.push("eot".to_owned());
            },
            FileCategory::Other => {},
        }
        v
    }


    /// Check if a file, given its name, should be ignored: hidden files (a
    /// leading dot) and known OS artifact names.
    pub fn should_ignore(&self, name: &str) -> (r: bool)
        ensures
            r == spec_should_ignore(name@),
    {
        if name.unicode_len() > 0 && name.get_char(0) == '.' {
            return true;
        }
        str_eq(name, "Thumbs.db") || str_eq(name, "Desktop.ini") || str_eq(name, ".DS_Store")
            || str_eq(name, "Icon\r") || str_eq(name, "desktop.ini") || str_eq(name, "thumbs.db")
            || str_eq(name, "ehthumbs.db")
    }
}

/// A file name is ignored when it starts with a dot or exactly matches one of
/// the known system artifact names.
pub open spec fn spec_should_ignore(name: Seq<char>) -> bool {
    (name.len() > 0 && name[0] == '.') || name == "Thumbs.db"@ || name == "Desktop.ini"@
        || name == ".DS_Store"@ || name == "Icon\r"@ || name == "desktop.ini"@
        || name == "thumbs.db"@ || name == "ehthumbs.db"@
}

proof fn lemma_category_of_lower(e: Seq<char>)
    ensures
        category_of_ext(lower(e)) == category_of_ext(e),
{
    lemma_lower_idempotent(e);
}

/// Classification is insensitive to ASCII case: a file name and the same name
/// with its ASCII letters lowercased fall in the same category.
pub proof fn lemma_classify_case_insensitive(name: Seq<char>)
    ensures
        spec_classify(lower(name)) == spec_classify(name),
{
    lemma_extension_of_lower(name);
    match spec_extension(name) {
        Some(e) => lemma_category_of_lower(e),
        None => (),
    }
}

/// A name without an extension, or whose extension no row of the table lists,
/// classifies as Other.
pub proof fn lemma_unknown_is_other(name: Seq<char>)
    requires
        spec_extension(name) is None || !in_extension_table(spec_extension(name)->0),
    ensures
        spec_classify(name) == FileCategory::Other,
{
}

/// File size categories for size-based organization. Every bucket's upper
/// bound is inclusive.
#[derive(Debug, Clone, PartialEq, Eq, Structural)]
pub enum FileSizeCategory {
    Tiny,
    Small,
    Medium,
    Large,
    Huge,
}

impl FileSizeCategory {
    /// The size bucket a byte count falls in.
    pub open spec fn spec_from_size(size_bytes: u64) -> FileSizeCategory {
        if size_bytes <= 1048576 {
            FileSizeCategory::Tiny
        } else if size_bytes <= 10485760 {
            FileSizeCategory::Small
        } else if size_bytes <= 104857600 {
            FileSizeCategory::Medium
        } else if size_bytes <= 1073741824 {
            FileSizeCategory::Large
        } else {
            FileSizeCategory::Huge
        }
    }

    /// Classify file size into categories.
    pub fn from_size(size_bytes: u64) -> (c: Self)
        ensures
            c == Self::spec_from_size(size_bytes),
    {
        if size_bytes <= 1_048_576 {
            FileSizeCategory::Tiny
        } else if size_bytes <= 10_485_760 {
            FileSizeCategory::Small
        } else if size_bytes <= 104_857_600 {
            FileSizeCategory::Medium
        } else if size_bytes <= 1_073_741_824 {
            FileSizeCategory::Large
        } else {
            FileSizeCategory::Huge
        }
    }

    /// The folder name for this size category.
    pub open spec fn spec_folder_name(self) -> Seq<char> {
        match self {
            FileSizeCategory::Tiny => "Tiny (< 1MB)"@,
            FileSizeCategory::Small => "Small (1-10MB)"@,
            FileSizeCategory::Medium => "Medium (10-100MB)"@,
            FileSizeCategory::Large => "Large (100MB-1GB)"@,
            FileSizeCategory::Huge => "Huge (> 1GB)"@,
        }
    }

    /// Get the folder name for this size category.
    pub fn folder_name(&self) -> (r: &'static str)
        ensures
            r@ == self.spec_folder_name(),
    {
        match self {
            FileSizeCategory::Tiny => "Tiny (< 1MB)",
            FileSizeCategory::Small => "Small (1-10MB)",
            FileSizeCategory::Medium => "Medium (10-100MB)",
            FileSizeCategory::Large => "Large (100MB-1GB)",
            FileSizeCategory::Huge => "Huge (> 1GB)",
        }
    }

    /// The emoji shown beside this size category.
    pub open spec fn spec_emoji(self) -> Seq<char> {
        match self {
            FileSizeCategory::Tiny => "\u{1f50d}"@,
            FileSizeCategory::Small => "\u{1f4c4}"@,
            FileSizeCategory::Medium => "\u{1f4c1}"@,
            FileSizeCategory::Large => "\u{1f4e6}"@,
            FileSizeCategory::Huge => "\u{1f5c3}\u{fe0f}"@,
        }
    }

    /// Get emoji representation for this size category.
    pub fn emoji(&self) -> (r: &'static str)
        ensures
            r@ == self.spec_emoji(),
    {
        match self {
            FileSizeCategory::Tiny => "\u{1f50d}",
            FileSizeCategory::Small => "\u{1f4c4}",
            FileSizeCategory::Medium => "\u{1f4c1}",
            FileSizeCategory::Large => "\u{1f4e6}",
            FileSizeCategory::Huge => "\u{1f5c3}\u{fe0f}",
        }
    }
}

} // verus!
