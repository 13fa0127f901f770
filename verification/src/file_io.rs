//! Reading what files hold: colour palettes and asset names.
//!
//! Nothing here touches a file. A palette is read from the text of a CSV
//! file, and an asset is filed under the name that its location gives.

use crate::asset::{declared_companion, file_stem, parsed_filename, Asset, AssetError};
use crate::library::AssetLibraries;
use crate::types::{parse_hex, Rgba};
use vstd::prelude::*;

verus! {

/// The error of the `csv` crate's reader.
#[verifier::external_type_specification]
#[verifier::external_body]
pub struct ExCsvError(csv::Error);

/// Why a palette could not be read.
#[derive(Debug, PartialEq, Eq, Clone, Copy, Structural)]
pub enum PaletteError {
    /// The text is not well-formed CSV with rows of equal length.
    InvalidCsv,
}

/// The rows that a CSV text without a header row holds, each row a list of
/// fields without the white space around them; nothing where the text is
/// not well-formed CSV or its rows differ in length.
pub uninterp spec fn csv_rows(text: Seq<char>) -> Option<Seq<Seq<Seq<char>>>>;

/// The rows of fields as sequences of characters.
pub open spec fn rows_view(rows: Seq<Vec<String>>) -> Seq<Seq<Seq<char>>> {
    Seq::new(rows.len(), |i: int| fields_view(rows[i]@))
}

/// The fields of a row as sequences of characters.
pub open spec fn fields_view(fields: Seq<String>) -> Seq<Seq<char>> {
    Seq::new(fields.len(), |j: int| fields[j]@)
}

/// `csv::ReaderBuilder` without headers and with all trimming, then
/// `Reader::records` over the text, each record's fields copied out: the
/// rows of the text, or the reader's error at the first row it cannot give.
#[verifier::external_body]
fn read_rows(text: &str) -> (res: Result<Vec<Vec<String>>, csv::Error>)
    ensures
        match res {
            Ok(rows) => csv_rows(text@) == Some(rows_view(rows@)),
            Err(_) => csv_rows(text@) is None,
        },
{
    let mut builder = csv::ReaderBuilder::new();
    builder.has_headers(false).trim(csv::Trim::All);
    let mut reader = builder.from_reader(text.as_bytes());
    let fields = |record: csv::StringRecord| record.iter().map(|field| field.to_owned()).collect();
    reader.records().map(|record| record.map(fields)).collect()
}

/// The colours that a list of fields holds: every field that is a hex
/// colour gives one, in order; any other field gives none.
pub open spec fn colours_of_fields(fields: Seq<Seq<char>>) -> Seq<Rgba>
    decreases fields.len(),
{
    if fields.len() == 0 {
        Seq::empty()
    } else {
        let before = colours_of_fields(fields.drop_last());
        match parse_hex(fields.last()) {
            Ok(colour) => before.push(colour),
            Err(_) => before,
        }
    }
}

/// The colours that rows of fields hold, row after row.
pub open spec fn colours_of_rows(rows: Seq<Seq<Seq<char>>>) -> Seq<Rgba>
    decreases rows.len(),
{
    if rows.len() == 0 {
        Seq::empty()
    } else {
        colours_of_rows(rows.drop_last()) + colours_of_fields(rows.last())
    }
}

/// Collects the colours that rows of fields hold. A field that is no hex
/// colour is passed over.
pub fn colours_of_records(rows: &Vec<Vec<String>>) -> (colours: Vec<Rgba>)
    ensures
        colours@ == colours_of_rows(rows_view(rows@)),
{
    let mut colours: Vec<Rgba> = Vec::new();
    let ghost all = rows_view(rows@);
    let mut i: usize = 0;
    assert(all.take(0) =~= Seq::<Seq<Seq<char>>>::empty());
    while i < rows.len()
        invariant
            i <= rows@.len(),
            all == rows_view(rows@),
            colours@ == colours_of_rows(all.take(i as int)),
        decreases rows@.len() - i,
    {
        let fields: &Vec<String> = &rows[i];
        let ghost row = fields_view(fields@);
        let ghost done = colours@;
        let mut j: usize = 0;
        assert(row.take(0) =~= Seq::<Seq<char>>::empty());
        assert(colours@ =~= done + colours_of_fields(row.take(0)));
        while j < fields.len()
            invariant
                j <= fields@.len(),
                row == fields_view(fields@),
                colours@ == done + colours_of_fields(row.take(j as int)),
            decreases fields@.len() - j,
        {
            proof {
                assert(row.take(j + 1).drop_last() =~= row.take(j as int));
                assert(row.take(j + 1).last() == fields@[j as int]@);
            }
            match Rgba::from_hex(fields[j].as_str()) {
                Ok(colour) => {
                    colours.push(colour);
                    assert(colours@ =~= done + colours_of_fields(row.take(j as int)).push(colour));
                },
                Err(_) => {},
            }
            j = j + 1;
        }
        proof {
            assert(row.take(j as int) =~= row);
            assert(all.take(i + 1).drop_last() =~= all.take(i as int));
            assert(all.take(i + 1).last() == row);
        }
        i = i + 1;
    }
    assert(all.take(i as int) =~= all);
    colours
}

/// Reads a palette from the text of a CSV file without a header row. Every
/// field that is a hex colour gives a colour, in reading order; fields that
/// are not are passed over. Text that is not well-formed CSV gives no
/// palette at all.
pub fn parse_colours(text: &str) -> (res: Result<Vec<Rgba>, PaletteError>)
    ensures
        match csv_rows(text@) {
            Some(rows) => res matches Ok(colours) && colours@ == colours_of_rows(rows),
            None => res == Err::<Vec<Rgba>, PaletteError>(PaletteError::InvalidCsv),
        },
{
    match read_rows(text) {
        Ok(rows) => Ok(colours_of_records(&rows)),
        Err(_) => Err(PaletteError::InvalidCsv),
    }
}

/// Whether `res` and `after` are what filing an image file leaves of the
/// libraries `before`, where `stem` is the file stem of the location `path`.
///
/// A location without a stem, and a stem that names no asset, change
/// nothing and are reported with their reason. A stem `<Name>_<Kind>` files
/// an asset without pixels in the library of its kind, under its identity;
/// a hair asset declares its companion.
pub open spec fn is_filing(
    before: AssetLibraries,
    after: AssetLibraries,
    res: Result<(), AssetError>,
    stem: Option<Seq<char>>,
    path: Seq<char>,
) -> bool {
    match stem {
        None => res == Err::<(), AssetError>(AssetError::InvalidPath) && after == before,
        Some(s) => match parsed_filename(s) {
            Err(e) => res == Err::<(), AssetError>(e) && after == before,
            Ok((name, kind)) => res is Ok && exists|asset: Asset| #[trigger]
                AssetLibraries::is_insertion(before, after, asset) && asset.is_made_of(
                    name,
                    path,
                    declared_companion(name, kind),
                    kind,
                    None,
                ),
        },
    }
}

/// Files the asset that the file stem of a location names in the library of
/// its kind, under its identity; `stem` is nothing where the location has
/// no file name.
pub fn add_asset_with_stem(asset_libraries: &mut AssetLibraries, stem: Option<&str>, path: &str) -> (res:
    Result<(), AssetError>)
    ensures
        is_filing(
            *old(asset_libraries),
            *final(asset_libraries),
            res,
            match stem {
                Some(s) => Some(s@),
                None => None,
            },
            path@,
        ),
{
    match stem {
        Some(s) => match Asset::from_file_stem(s, path, None) {
            Ok(asset) => {
                let ghost filed = asset;
                asset_libraries.insert(asset);
                assert(AssetLibraries::is_insertion(*old(asset_libraries), *asset_libraries, filed));
                Ok(())
            },
            Err(e) => Err(e),
        },
        None => Err(AssetError::InvalidPath),
    }
}

/// Files the asset that an image file's location names in the library of
/// its kind, under its identity. A location that names no asset changes
/// nothing and is reported, so that a caller can pass it over. The file
/// stem is taken by the platform's path rules; what is made of it is what
/// [`add_asset_with_stem`] states.
pub fn add_asset_to_library(asset_libraries: &mut AssetLibraries, path: &str) -> (res: Result<
    (),
    AssetError,
>)
    ensures
        exists|stem: Option<Seq<char>>|
            is_filing(*old(asset_libraries), *final(asset_libraries), res, stem, path@),
        res is Err ==> *final(asset_libraries) == *old(asset_libraries),
{
    let stem: Option<String> = file_stem(path);
    let res = match &stem {
        Some(s) => add_asset_with_stem(asset_libraries, Some(s.as_str()), path),
        None => add_asset_with_stem(asset_libraries, None, path),
    };
    proof {
        let found: Option<Seq<char>> = match stem {
            Some(s) => Some(s@),
            None => None,
        };
        assert(is_filing(*old(asset_libraries), *asset_libraries, res, found, path@));
    }
    res
}

} // verus!
