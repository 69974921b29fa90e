//! Reading the Windows ffmpeg shared build: which files of the zip archive
//! go into the bin directory, and under which names.
use vstd::prelude::*;
use crate::deps::ffmpeg::{bin_entry_name, zip_bin_entry};

verus! {

/// The entry names of a zip archive, in archive order, as the `zip` crate
/// reads them, or the crate's error text when it cannot read them.
pub uninterp spec fn zip_names(bytes: Seq<u8>) -> Result<Seq<Seq<char>>, Seq<char>>;

/// The uncompressed data of entry `i` of a zip archive, as the `zip` crate
/// reads it, or the crate's error text when it cannot.
pub uninterp spec fn zip_entry(bytes: Seq<u8>, i: nat) -> Result<Seq<u8>, Seq<char>>;

/// Opens the archive with `zip::ZipArchive::new` and collects the name of
/// every entry (`ZipArchive::by_index`, `ZipFile::name`) in index order.
/// The contract names the outcome `zip_names(bytes)`: the names, or the
/// text of the first error.
#[verifier::external_body]
fn read_zip_names(bytes: &[u8]) -> (r: Result<Vec<String>, String>)
    ensures
        match r {
            Ok(v) => zip_names(bytes@) == Ok::<Seq<Seq<char>>, Seq<char>>(v@.map_values(|s: String| s@)),
            Err(e) => zip_names(bytes@) == Err::<Seq<Seq<char>>, Seq<char>>(e@),
        },
{
    let mut archive = zip::ZipArchive::new(std::io::Cursor::new(bytes)).map_err(|e| e.to_string())?;
    let mut names = Vec::new();
    for i in 0..archive.len() {
        let file = archive.by_index(i).map_err(|e| e.to_string())?;
        names.push(file.name().map_err(|e| e.to_string())?.into_owned());
    }
    Ok(names)
}

/// Opens the archive with `zip::ZipArchive::new` and reads entry `i` to its
/// end (`ZipArchive::by_index`, `Read::read_to_end`). The contract names the
/// outcome `zip_entry(bytes, i)`: the data, or the text of the error.
#[verifier::external_body]
fn read_zip_entry(bytes: &[u8], i: usize) -> (r: Result<Vec<u8>, String>)
    ensures
        match r {
            Ok(v) => zip_entry(bytes@, i as nat) == Ok::<Seq<u8>, Seq<char>>(v@),
            Err(e) => zip_entry(bytes@, i as nat) == Err::<Seq<u8>, Seq<char>>(e@),
        },
{
    let mut archive = zip::ZipArchive::new(std::io::Cursor::new(bytes)).map_err(|e| e.to_string())?;
    let mut file = archive.by_index(i).map_err(|e| e.to_string())?;
    let mut data = Vec::new();
    std::io::Read::read_to_end(&mut file, &mut data).map_err(|e| e.to_string())?;
    Ok(data)
}

/// The entries that go into the bin directory, as (index, file name) in
/// archive order: those directly under a `bin/` directory.
pub open spec fn bin_selection(names: Seq<Seq<char>>) -> Seq<(int, Seq<char>)>
    decreases names.len(),
{
    if names.len() == 0 {
        Seq::empty()
    } else {
        let prev = bin_selection(names.drop_last());
        match bin_entry_name(names.last()) {
            Some(f) => prev.push(((names.len() - 1) as int, f)),
            None => prev,
        }
    }
}

/// The selected files with their data, read in order; the first read that
/// fails gives the result.
pub open spec fn extracted(bytes: Seq<u8>, sel: Seq<(int, Seq<char>)>) -> Result<
    Seq<(Seq<char>, Seq<u8>)>,
    Seq<char>,
>
    decreases sel.len(),
{
    if sel.len() == 0 {
        Ok(Seq::empty())
    } else {
        match extracted(bytes, sel.drop_last()) {
            Err(e) => Err(e),
            Ok(prev) => match zip_entry(bytes, sel.last().0 as nat) {
                Ok(d) => Ok(prev.push((sel.last().1, d))),
                Err(e) => Err(e),
            },
        }
    }
}

/// The files of a zip archive that go into the bin directory.
pub open spec fn bin_files_of(bytes: Seq<u8>) -> Result<Seq<(Seq<char>, Seq<u8>)>, Seq<char>> {
    match zip_names(bytes) {
        Err(e) => Err(e),
        Ok(names) => extracted(bytes, bin_selection(names)),
    }
}

/// A list of files by view.
pub open spec fn files_view(v: Seq<(String, Vec<u8>)>) -> Seq<(Seq<char>, Seq<u8>)> {
    v.map_values(|e: (String, Vec<u8>)| (e.0@, e.1@))
}

proof fn lemma_selection_prefix(names: Seq<Seq<char>>, i: int, j: int)
    requires
        0 <= i <= j <= names.len(),
    ensures
        bin_selection(names.take(i)).is_prefix_of(bin_selection(names.take(j))),
    decreases j - i,
{
    if i < j {
        lemma_selection_prefix(names, i, j - 1);
        assert(names.take(j).drop_last() =~= names.take(j - 1));
    }
}

proof fn lemma_error_persists(bytes: Seq<u8>, s: Seq<(int, Seq<char>)>, t: Seq<(int, Seq<char>)>, e: Seq<char>)
    requires
        s.is_prefix_of(t),
        extracted(bytes, s) == Err::<Seq<(Seq<char>, Seq<u8>)>, Seq<char>>(e),
    ensures
        extracted(bytes, t) == Err::<Seq<(Seq<char>, Seq<u8>)>, Seq<char>>(e),
    decreases t.len(),
{
    if t.len() > s.len() {
        assert(s.is_prefix_of(t.drop_last()));
        lemma_error_persists(bytes, s, t.drop_last(), e);
    } else {
        assert(s =~= t);
    }
}

/// The files of a Windows shared-build archive that go into the bin
/// directory, with their data, in archive order: each entry directly under
/// a `bin/` directory, under its file name.
pub fn bin_files(bytes: &[u8]) -> (r: Result<Vec<(String, Vec<u8>)>, String>)
    ensures
        match r {
            Ok(v) => bin_files_of(bytes@) == Ok::<Seq<(Seq<char>, Seq<u8>)>, Seq<char>>(files_view(v@)),
            Err(e) => bin_files_of(bytes@) == Err::<Seq<(Seq<char>, Seq<u8>)>, Seq<char>>(e@),
        },
{
    let names = match read_zip_names(bytes) {
        Ok(n) => n,
        Err(e) => {
            return Err(e);
        },
    };
    let ghost nv = names@.map_values(|s: String| s@);
    let mut out: Vec<(String, Vec<u8>)> = Vec::new();
    let mut i: usize = 0;
    assert(nv.take(0) =~= Seq::<Seq<char>>::empty());
    assert(files_view(out@) =~= Seq::<(Seq<char>, Seq<u8>)>::empty());
    while i < names.len()
        invariant
            i <= names.len(),
            nv == names@.map_values(|s: String| s@),
            zip_names(bytes@) == Ok::<Seq<Seq<char>>, Seq<char>>(nv),
            extracted(bytes@, bin_selection(nv.take(i as int))) == Ok::<
                Seq<(Seq<char>, Seq<u8>)>,
                Seq<char>,
            >(files_view(out@)),
        decreases names.len() - i,
    {
        let ghost sel = bin_selection(nv.take(i as int));
        assert(nv.take(i + 1).drop_last() =~= nv.take(i as int));
        assert(nv.take(i + 1).last() == names@[i as int]@);
        match zip_bin_entry(names[i].as_str()) {
            Some(f) => {
                assert(bin_selection(nv.take(i + 1)) == sel.push((i as int, f@)));
                assert(sel.push((i as int, f@)).drop_last() =~= sel);
                match read_zip_entry(bytes, i) {
                    Ok(d) => {
                        let ghost before = out@;
                        out.push((f, d));
                        assert(files_view(out@) =~= files_view(before).push(
                            (out@.last().0@, out@.last().1@),
                        ));
                    },
                    Err(e) => {
                        proof {
                            lemma_selection_prefix(nv, i + 1, nv.len() as int);
                            assert(nv.take(nv.len() as int) =~= nv);
                            lemma_error_persists(
                                bytes@,
                                bin_selection(nv.take(i + 1)),
                                bin_selection(nv),
                                e@,
                            );
                        }
                        return Err(e);
                    },
                }
            },
            None => {
                assert(bin_selection(nv.take(i + 1)) == sel);
            },
        }
        i = i + 1;
    }
    assert(nv.take(names.len() as int) =~= nv);
    Ok(out)
}


/// The entries of a list of archive names that go into the bin directory,
/// as (index, file name) in archive order.
pub fn select_bin_entries(names: &Vec<String>) -> (r: Vec<(usize, String)>)
    ensures
        r@.map_values(|e: (usize, String)| (e.0 as int, e.1@)) == bin_selection(
            names@.map_values(|s: String| s@),
        ),
{
    let ghost nv = names@.map_values(|s: String| s@);
    let mut r: Vec<(usize, String)> = Vec::new();
    let mut i: usize = 0;
    assert(nv.take(0) =~= Seq::<Seq<char>>::empty());
    assert(r@.map_values(|e: (usize, String)| (e.0 as int, e.1@)) =~= Seq::<(int, Seq<char>)>::empty());
    while i < names.len()
        invariant
            i <= names.len(),
            nv == names@.map_values(|s: String| s@),
            r@.map_values(|e: (usize, String)| (e.0 as int, e.1@)) == bin_selection(nv.take(i as int)),
        decreases names.len() - i,
    {
        let ghost sel = bin_selection(nv.take(i as int));
        assert(nv.take(i + 1).drop_last() =~= nv.take(i as int));
        assert(nv.take(i + 1).last() == names@[i as int]@);
        match zip_bin_entry(names[i].as_str()) {
            Some(f) => {
                let ghost before = r@;
                r.push((i, f));
                assert(r@.map_values(|e: (usize, String)| (e.0 as int, e.1@)) =~= sel.push(
                    (i as int, r@.last().1@),
                ));
            },
            None => {},
        }
        i = i + 1;
    }
    assert(nv.take(names.len() as int) =~= nv);
    r
}

} // verus!
