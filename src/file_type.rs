//! The input formats that records can be read from.

use vstd::prelude::*;
use crate::texto::mesmo_texto;

verus! {

/// A format of input file.
#[derive(Clone, Copy, Debug, PartialEq, Eq, Structural)]
pub enum FileType {
    Csv,
    Json,
    Parquet,
    Xml,
}

/// The format named by a lower-case file extension.
pub open spec fn tipo_da_extensao(ext: Seq<char>) -> Option<FileType> {
    if ext == "csv"@ {
        Some(FileType::Csv)
    } else if ext == "json"@ {
        Some(FileType::Json)
    } else if ext == "parquet"@ {
        Some(FileType::Parquet)
    } else if ext == "xml"@ {
        Some(FileType::Xml)
    } else {
        None
    }
}

/// The lower-case form of a text, as `str::to_lowercase` gives it.
pub uninterp spec fn minusculas(s: Seq<char>) -> Seq<char>;

/// Relies on `str::to_lowercase`: the lower-case form depends on the
/// characters alone.
#[verifier::external_body]
fn em_minusculas(s: &str) -> (r: String)
    ensures
        r@ == minusculas(s@),
{
    s.to_lowercase()
}

/// The format named by an extension that is already in lower case.
pub fn tipo_por_extensao_minuscula(ext: &str) -> (r: Option<FileType>)
    ensures
        r == tipo_da_extensao(ext@),
{
    if mesmo_texto(ext, "csv") {
        Some(FileType::Csv)
    } else if mesmo_texto(ext, "json") {
        Some(FileType::Json)
    } else if mesmo_texto(ext, "parquet") {
        Some(FileType::Parquet)
    } else if mesmo_texto(ext, "xml") {
        Some(FileType::Xml)
    } else {
        None
    }
}

/// The format named by a file extension, in any case.
pub fn tipo_por_extensao(ext: &str) -> (r: Option<FileType>)
    ensures
        r == tipo_da_extensao(minusculas(ext@)),
{
    let minuscula = em_minusculas(ext);
    tipo_por_extensao_minuscula(minuscula.as_str())
}

} // verus!
