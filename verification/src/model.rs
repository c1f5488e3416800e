//! The two directories as mathematical values, and what the passes of a mint
//! do to them.
//!
//! A directory is the map from the registered paths to the contents of the
//! files found under them. The plans of a mint say which files are compared
//! and which are overwritten; the functions here say what follows for the
//! contents, and the lemmas what holds of every test run.

use crate::differs::{diffable, verdict_of, Differ, Verdict};
use crate::mint::{
    overwrite_of, overwrite_op, FileOpView, GoldenfileLocation, GoldenfileView, MintView,
};
use crate::mint::comparison_of;
use crate::recovery::restore_of;
use vstd::map::*;
use vstd::prelude::*;
use vstd::utf8::*;

verus! {

/// The files of a directory: contents by relative path.
pub type Tree = Map<Seq<char>, Seq<u8>>;

/// The golden directory and the staging directory of one mint.
pub struct Disk {
    pub golden: Tree,
    pub staging: Tree,
}

/// What a custom differ, known by its number, says of two contents.
pub type CustomDiffers = spec_fn(u32, Seq<u8>, Seq<u8>) -> bool;

/// Whether a differ finds the replication to match the committed contents.
/// A custom differ is asked; a built-in one has to come to the verdict that
/// the two are the same.
pub open spec fn accepts(differ: Differ, golden: Seq<u8>, new: Seq<u8>, custom: CustomDiffers) -> bool {
    match differ {
        Differ::Custom(number) => custom(number, golden, new),
        _ => verdict_of(differ, golden, new) == Verdict::Same,
    }
}

/// Whether a file can be compared with a copy of itself: as text it has to be
/// UTF-8 with no more lines than the text differ takes on this machine, and a
/// custom differ has to accept it when it is held against itself.
pub open spec fn comparable(differ: Differ, content: Seq<u8>, custom: CustomDiffers) -> bool {
    match differ {
        Differ::Text => valid_utf8(content) && diffable(content, content),
        Differ::Binary => true,
        Differ::Custom(number) => custom(number, content, content),
    }
}

/// Whether the comparison of one goldenfile succeeds: both files are there,
/// and the differ accepts the replication. The committed contents lie in the
/// golden directory for a goldenfile in its original location, and in the
/// staging directory for one that was moved there.
pub open spec fn passes(disk: Disk, goldenfile: GoldenfileView, custom: CustomDiffers) -> bool {
    &&& disk.golden.contains_key(goldenfile.file)
    &&& disk.staging.contains_key(goldenfile.file)
    &&& match goldenfile.location {
        GoldenfileLocation::Original => accepts(
            goldenfile.differ,
            disk.golden[goldenfile.file],
            disk.staging[goldenfile.file],
            custom,
        ),
        GoldenfileLocation::Temporary => accepts(
            goldenfile.differ,
            disk.staging[goldenfile.file],
            disk.golden[goldenfile.file],
            custom,
        ),
    }
}

/// Whether the verify pass of a mint succeeds: every comparison does.
pub open spec fn verify_pass(disk: Disk, mint: MintView, custom: CustomDiffers) -> bool {
    forall|i: int| 0 <= i < mint.files.len() ==> passes(disk, #[trigger] mint.files[i], custom)
}

/// The golden directory after a file operation was performed on the file
/// under `file`, with `content` as the source of a copy.
pub open spec fn performed(op: FileOpView, golden: Tree, file: Seq<char>, content: Seq<u8>) -> Tree {
    match op {
        FileOpView::Copy { .. } => golden.insert(file, content),
        FileOpView::Remove { .. } => golden.remove(file),
        FileOpView::Nothing => golden,
    }
}

/// The directories after one step of the update pass: the operation that the
/// mint chooses for the goldenfile, from the length of its replication and
/// from whether it is there already, is performed on the golden directory.
pub open spec fn update_step(disk: Disk, mint: MintView, goldenfile: GoldenfileView) -> Disk {
    let step = overwrite_of(mint, goldenfile);
    let content = disk.staging[goldenfile.file];
    let op = overwrite_op(
        step.dest,
        step.source,
        mint.create_empty,
        step.file,
        content.len(),
        disk.golden.contains_key(goldenfile.file),
    );
    Disk { golden: performed(op, disk.golden, goldenfile.file, content), staging: disk.staging }
}

/// The mint without the goldenfile that was registered last.
pub open spec fn without_last(mint: MintView) -> MintView {
    MintView { files: mint.files.drop_last(), ..mint }
}

/// The directories after the update pass of a mint: one step for each
/// registered goldenfile, in the order of registration.
pub open spec fn update_pass(disk: Disk, mint: MintView) -> Disk
    decreases mint.files.len(),
{
    if mint.files.len() == 0 {
        disk
    } else {
        update_step(update_pass(disk, without_last(mint)), mint, mint.files.last())
    }
}

/// The golden directory after one file of it was overwritten with `content`
/// under the policy on empty files: an empty file is written only where empty
/// goldenfiles are wanted, and else the goldenfile is gone.
pub open spec fn overwritten(golden: Tree, file: Seq<char>, content: Seq<u8>, create_empty: bool) -> Tree {
    if create_empty || content.len() != 0 {
        golden.insert(file, content)
    } else {
        golden.remove(file)
    }
}

/// The directories after a goldenfile was moved to the staging directory.
pub open spec fn moved(disk: Disk, file: Seq<char>) -> Disk {
    Disk { golden: disk.golden.remove(file), staging: disk.staging.insert(file, disk.golden[file]) }
}

/// Whether a path is among the registered ones.
pub open spec fn registered(mint: MintView, file: Seq<char>) -> bool {
    exists|i: int| 0 <= i < mint.files.len() && (#[trigger] mint.files[i]).file == file
}

/// Whether the staging directory holds a file for every registered goldenfile.
pub open spec fn all_staged(disk: Disk, mint: MintView) -> bool {
    forall|i: int|
        0 <= i < mint.files.len() ==> disk.staging.contains_key((#[trigger] mint.files[i]).file)
}

/// One step of the update pass keeps the policy on empty files.
pub proof fn lemma_update_step_keeps_policy(disk: Disk, mint: MintView, goldenfile: GoldenfileView)
    ensures
        update_step(disk, mint, goldenfile).staging == disk.staging,
        update_step(disk, mint, goldenfile).golden == overwritten(
            disk.golden,
            goldenfile.file,
            disk.staging[goldenfile.file],
            mint.create_empty,
        ),
{
    if !disk.golden.contains_key(goldenfile.file) {
        assert(disk.golden.remove(goldenfile.file) =~= disk.golden);
    }
}

/// The update pass leaves the staging directory alone. In the golden
/// directory it leaves every file alone that is not registered. A registered
/// file is there afterwards exactly where its replication holds something or
/// empty goldenfiles are wanted, and then it holds what the replication holds.
pub proof fn lemma_update_pass_at(disk: Disk, mint: MintView, file: Seq<char>)
    ensures
        update_pass(disk, mint).staging == disk.staging,
        registered(mint, file) ==> {
            &&& update_pass(disk, mint).golden.contains_key(file) == (mint.create_empty
                || disk.staging[file].len() != 0)
            &&& update_pass(disk, mint).golden.contains_key(file) ==> update_pass(
                disk,
                mint,
            ).golden[file] == disk.staging[file]
        },
        !registered(mint, file) ==> {
            &&& update_pass(disk, mint).golden.contains_key(file) == disk.golden.contains_key(file)
            &&& update_pass(disk, mint).golden[file] == disk.golden[file]
        },
    decreases mint.files.len(),
{
    if mint.files.len() > 0 {
        let before = without_last(mint);
        lemma_update_pass_at(disk, before, file);
        lemma_update_step_keeps_policy(update_pass(disk, before), mint, mint.files.last());
        if mint.files.last().file == file {
            assert(registered(mint, file));
        } else if registered(before, file) {
            let i = choose|i: int|
                0 <= i < before.files.len() && (#[trigger] before.files[i]).file == file;
            assert(mint.files[i].file == file);
        } else {
            assert forall|i: int| 0 <= i < mint.files.len() implies (#[trigger] mint.files[i]).file
                != file by {
                if i < before.files.len() {
                    assert(before.files[i].file != file);
                }
            }
        }
    }
}

/// A goldenfile in its original location, compared by one of the two
/// built-in differs, passes exactly where its replication holds the bytes
/// that are committed. For the text differ both files have to hold UTF-8,
/// with no more lines than it takes on this machine.
pub proof fn lemma_original_passes_iff_equal(
    disk: Disk,
    goldenfile: GoldenfileView,
    custom: CustomDiffers,
)
    requires
        goldenfile.location == GoldenfileLocation::Original,
        !(goldenfile.differ is Custom),
        disk.golden.contains_key(goldenfile.file),
        disk.staging.contains_key(goldenfile.file),
        goldenfile.differ == Differ::Text ==> {
            &&& valid_utf8(disk.golden[goldenfile.file])
            &&& valid_utf8(disk.staging[goldenfile.file])
            &&& diffable(disk.golden[goldenfile.file], disk.staging[goldenfile.file])
        },
    ensures
        passes(disk, goldenfile, custom) <==> disk.golden[goldenfile.file]
            == disk.staging[goldenfile.file],
{
    if goldenfile.differ == Differ::Text {
        decode_utf8_encode_utf8(disk.golden[goldenfile.file]);
        decode_utf8_encode_utf8(disk.staging[goldenfile.file]);
    }
}

/// After a goldenfile was moved, the golden directory holds it no longer, and
/// the staging directory holds exactly what was committed.
pub proof fn lemma_moved_goldenfile(disk: Disk, file: Seq<char>)
    requires
        disk.golden.contains_key(file),
    ensures
        !moved(disk, file).golden.contains_key(file),
        moved(disk, file).staging.contains_key(file),
        moved(disk, file).staging[file] == disk.golden[file],
{
}

/// The update pass is idempotent: run again on what it left, it changes
/// nothing.
pub proof fn lemma_update_pass_idempotent(disk: Disk, mint: MintView)
    ensures
        update_pass(update_pass(disk, mint), mint) == update_pass(disk, mint),
{
    let once = update_pass(disk, mint);
    let twice = update_pass(once, mint);
    assert_maps_equal!(twice.golden, once.golden, file => {
        lemma_update_pass_at(disk, mint, file);
        lemma_update_pass_at(once, mint, file);
    });
    lemma_update_pass_at(once, mint, Seq::empty());
}

/// The verify pass succeeds on what the update pass left, given that every
/// replication is there, that none of them is empty unless empty goldenfiles
/// are wanted, and that each can be compared with a copy of itself.
pub proof fn lemma_update_then_verify(disk: Disk, mint: MintView, custom: CustomDiffers)
    requires
        all_staged(disk, mint),
        forall|i: int|
            0 <= i < mint.files.len() ==> mint.create_empty || disk.staging[(
            #[trigger] mint.files[i]).file].len() != 0,
        forall|i: int|
            0 <= i < mint.files.len() ==> comparable(
                (#[trigger] mint.files[i]).differ,
                disk.staging[mint.files[i].file],
                custom,
            ),
    ensures
        verify_pass(update_pass(disk, mint), mint, custom),
{
    let after = update_pass(disk, mint);
    assert forall|i: int| 0 <= i < mint.files.len() implies passes(
        after,
        #[trigger] mint.files[i],
        custom,
    ) by {
        lemma_update_pass_at(disk, mint, mint.files[i].file);
        assert(registered(mint, mint.files[i].file));
    }
}

/// The policy on empty files, seen after the update pass: a registered
/// goldenfile whose replication is empty is an empty file where empty
/// goldenfiles are wanted, and is absent where they are not.
pub proof fn lemma_empty_replication(disk: Disk, mint: MintView, file: Seq<char>)
    requires
        registered(mint, file),
        disk.staging.contains_key(file),
        disk.staging[file].len() == 0,
    ensures
        mint.create_empty ==> update_pass(disk, mint).golden.contains_key(file) && update_pass(
            disk,
            mint,
        ).golden[file].len() == 0,
        !mint.create_empty ==> !update_pass(disk, mint).golden.contains_key(file),
{
    lemma_update_pass_at(disk, mint, file);
}

/// The directories after one goldenfile of a failing test was recovered:
/// where the recovery holds a step that puts the goldenfile back, that step of
/// the update pass is taken, and else nothing is done.
pub open spec fn recover_step(disk: Disk, mint: MintView, goldenfile: GoldenfileView) -> Disk {
    match restore_of(comparison_of(mint, goldenfile)) {
        Some(_) => update_step(disk, mint, goldenfile),
        None => disk,
    }
}

/// The directories after every goldenfile of a failing test was recovered, in
/// the order of registration.
pub open spec fn recover_pass(disk: Disk, mint: MintView) -> Disk
    decreases mint.files.len(),
{
    if mint.files.len() == 0 {
        disk
    } else {
        recover_step(recover_pass(disk, without_last(mint)), mint, mint.files.last())
    }
}

/// Whether a path is registered as that of a goldenfile that was moved to the
/// staging directory.
pub open spec fn registered_as_moved(mint: MintView, file: Seq<char>) -> bool {
    exists|i: int|
        0 <= i < mint.files.len() && (#[trigger] mint.files[i]).file == file && mint.files[i].location
            == GoldenfileLocation::Temporary
}

/// A failing test leaves the staging directory alone, and in the golden
/// directory every file that was not moved away. A goldenfile that was moved
/// away is back afterwards with what is kept of it in the staging directory;
/// only where that is empty and empty goldenfiles are not wanted, it is
/// absent.
pub proof fn lemma_recover_pass_at(disk: Disk, mint: MintView, file: Seq<char>)
    ensures
        recover_pass(disk, mint).staging == disk.staging,
        registered_as_moved(mint, file) ==> {
            &&& recover_pass(disk, mint).golden.contains_key(file) == (mint.create_empty
                || disk.staging[file].len() != 0)
            &&& recover_pass(disk, mint).golden.contains_key(file) ==> recover_pass(
                disk,
                mint,
            ).golden[file] == disk.staging[file]
        },
        !registered_as_moved(mint, file) ==> {
            &&& recover_pass(disk, mint).golden.contains_key(file) == disk.golden.contains_key(file)
            &&& recover_pass(disk, mint).golden[file] == disk.golden[file]
        },
    decreases mint.files.len(),
{
    if mint.files.len() > 0 {
        let before = without_last(mint);
        let last = mint.files.last();
        lemma_recover_pass_at(disk, before, file);
        lemma_update_step_keeps_policy(recover_pass(disk, before), mint, last);
        if last.file == file && last.location == GoldenfileLocation::Temporary {
            assert(registered_as_moved(mint, file));
        } else if registered_as_moved(before, file) {
            let i = choose|i: int|
                0 <= i < before.files.len() && (#[trigger] before.files[i]).file == file
                    && before.files[i].location == GoldenfileLocation::Temporary;
            assert(mint.files[i].file == file && mint.files[i].location
                == GoldenfileLocation::Temporary);
        } else {
            assert forall|i: int| 0 <= i < mint.files.len() implies !((
            #[trigger] mint.files[i]).file == file && mint.files[i].location
                == GoldenfileLocation::Temporary) by {
                if i < before.files.len() {
                    assert(before.files[i] == mint.files[i]);
                }
            }
        }
    }
}

} // verus!
