//! The mint: the registry of a test's goldenfiles and the plans for its end.

use crate::differs::{differ_for, get_differ_for_path, Differ};
use crate::paths::{
    is_relative, is_relative_path, join, joined_path, parent, parent_path, path_extension, same,
    same_path,
};
use crate::recovery::{recovers, Recovery};
use vstd::prelude::*;
use vstd::string::*;

verus! {

/// Where the goldenfile lies while the test runs.
#[derive(Clone, Copy, Debug, PartialEq, Eq, Structural)]
pub enum GoldenfileLocation {
    /// The goldenfile stays in the golden directory; its replication is
    /// expected in the staging directory.
    Original,
    /// The goldenfile was moved to the staging directory; its replication is
    /// expected back in the golden directory.
    Temporary,
}

/// A path was registered that is not relative.
#[derive(Clone, Copy, Debug, PartialEq, Eq, Structural)]
pub struct InvalidInput;

impl InvalidInput {
    /// The error in words.
    pub fn message(&self) -> (message: String)
        ensures
            message@ == "Path must be relative."@,
    {
        String::from_str("Path must be relative.")
    }
}

/// One registered goldenfile.
#[derive(Clone, Debug, PartialEq, Eq)]
pub struct Goldenfile {
    /// Its path, relative to the golden directory and to the staging directory.
    pub file: String,
    /// How it is compared with its replication.
    pub differ: Differ,
    /// Where it lies while the test runs.
    pub location: GoldenfileLocation,
}

/// A registered goldenfile as a mathematical value.
pub struct GoldenfileView {
    pub file: Seq<char>,
    pub differ: Differ,
    pub location: GoldenfileLocation,
}

impl View for Goldenfile {
    type V = GoldenfileView;

    open spec fn view(&self) -> GoldenfileView {
        GoldenfileView { file: self.file@, differ: self.differ, location: self.location }
    }
}

/// The registry as a sequence of mathematical values.
pub open spec fn registry_view(files: Seq<Goldenfile>) -> Seq<GoldenfileView> {
    files.map_values(|g: Goldenfile| g@)
}

/// Enters a goldenfile into a registry, or rejects it: `relative` says whether
/// its path was found to be relative. A rejected goldenfile leaves the registry
/// as it was.
pub fn enter(files: &mut Vec<Goldenfile>, goldenfile: Goldenfile, relative: bool) -> (entered:
    Result<(), InvalidInput>)
    ensures
        relative ==> entered is Ok && final(files)@ == old(files)@.push(goldenfile),
        !relative ==> entered is Err && final(files)@ == old(files)@,
{
    if !relative {
        return Err(InvalidInput);
    }
    files.push(goldenfile);
    Ok(())
}

/// One comparison of the verify pass: the differ is to hold `new` against
/// `golden`.
#[derive(Clone, Debug, PartialEq, Eq)]
pub struct Comparison {
    /// The registered path.
    pub file: String,
    /// The strategy that compares the two files.
    pub differ: Differ,
    /// Where the goldenfile lies.
    pub location: GoldenfileLocation,
    /// The file that holds the committed contents.
    pub golden: String,
    /// The file that holds the replication.
    pub new: String,
}

/// A comparison as a mathematical value.
pub struct ComparisonView {
    pub file: Seq<char>,
    pub differ: Differ,
    pub location: GoldenfileLocation,
    pub golden: Seq<char>,
    pub new: Seq<char>,
}

impl View for Comparison {
    type V = ComparisonView;

    open spec fn view(&self) -> ComparisonView {
        ComparisonView {
            file: self.file@,
            differ: self.differ,
            location: self.location,
            golden: self.golden@,
            new: self.new@,
        }
    }
}

/// One step of the update pass: `dest` is to be overwritten with `source`,
/// as the policy on empty files allows.
#[derive(Clone, Debug, PartialEq, Eq)]
pub struct Overwrite {
    /// The registered path.
    pub file: String,
    /// The file in the golden directory.
    pub dest: String,
    /// The file in the staging directory.
    pub source: String,
}

/// A step of the update pass as a mathematical value.
pub struct OverwriteView {
    pub file: Seq<char>,
    pub dest: Seq<char>,
    pub source: Seq<char>,
}

impl View for Overwrite {
    type V = OverwriteView;

    open spec fn view(&self) -> OverwriteView {
        OverwriteView { file: self.file@, dest: self.dest@, source: self.source@ }
    }
}

/// The comparison that the verify pass makes for a registered goldenfile. The
/// committed contents lie where the goldenfile's location says, the replication
/// on the other side.
pub open spec fn comparison_of(mint: MintView, goldenfile: GoldenfileView) -> ComparisonView {
    let orig = joined_path(mint.path, goldenfile.file);
    let temp = joined_path(mint.tempdir, goldenfile.file);
    ComparisonView {
        file: goldenfile.file,
        differ: goldenfile.differ,
        location: goldenfile.location,
        golden: match goldenfile.location {
            GoldenfileLocation::Original => orig,
            GoldenfileLocation::Temporary => temp,
        },
        new: match goldenfile.location {
            GoldenfileLocation::Original => temp,
            GoldenfileLocation::Temporary => orig,
        },
    }
}

/// The step that the update pass makes for a registered goldenfile: whatever
/// its location, the staging directory is the source and the golden directory
/// the destination.
pub open spec fn overwrite_of(mint: MintView, goldenfile: GoldenfileView) -> OverwriteView {
    OverwriteView {
        file: goldenfile.file,
        dest: joined_path(mint.path, goldenfile.file),
        source: joined_path(mint.tempdir, goldenfile.file),
    }
}

/// Where the file of a new goldenfile is to be created.
#[derive(Clone, Debug, PartialEq, Eq)]
pub struct NewGoldenfile {
    /// The file in the staging directory that takes the replication.
    pub path: String,
    /// The directory to create before the file, where the file does not lie
    /// directly in the staging directory.
    pub subdirectory: Option<String>,
}

/// The directory that has to exist before a file is created at `abs_path`:
/// the one above it, unless that is the staging directory itself.
pub open spec fn subdirectory_of(tempdir: Seq<char>, abs_path: Seq<char>) -> Option<Seq<char>> {
    match parent_path(abs_path) {
        Some(above) => if same_path(above, tempdir) {
            None
        } else {
            Some(above)
        },
        None => None,
    }
}

/// Whether a directory, if one is named, is the one that has to exist before
/// a file is created at `abs_path`, and none is named where none has to.
pub open spec fn names_subdirectory(
    named: Option<String>,
    tempdir: Seq<char>,
    abs_path: Seq<char>,
) -> bool {
    match named {
        Some(dir) => subdirectory_of(tempdir, abs_path) == Some(dir@),
        None => subdirectory_of(tempdir, abs_path) is None,
    }
}

/// The move of a goldenfile out of the golden directory: `gold` is to be
/// copied to `temp` and then removed.
#[derive(Clone, Debug, PartialEq, Eq)]
pub struct Relocation {
    /// The goldenfile in the golden directory.
    pub gold: String,
    /// Where it goes in the staging directory.
    pub temp: String,
    /// The directory to create before the copy, where `temp` does not lie
    /// directly in the staging directory.
    pub subdirectory: Option<String>,
}

/// What is done to the destination of one step of the update pass.
#[derive(Clone, Debug, PartialEq, Eq)]
pub enum FileOp {
    /// Print `notice`, then copy the file `from` over the file `to`.
    Copy { notice: String, from: String, to: String },
    /// Remove the file `path`.
    Remove { path: String },
    /// Leave everything as it is.
    Nothing,
}

/// A file operation as a mathematical value.
pub enum FileOpView {
    Copy { notice: Seq<char>, from: Seq<char>, to: Seq<char> },
    Remove { path: Seq<char> },
    Nothing,
}

impl View for FileOp {
    type V = FileOpView;

    open spec fn view(&self) -> FileOpView {
        match self {
            FileOp::Copy { notice, from, to } => FileOpView::Copy {
                notice: notice@,
                from: from@,
                to: to@,
            },
            FileOp::Remove { path } => FileOpView::Remove { path: path@ },
            FileOp::Nothing => FileOpView::Nothing,
        }
    }
}

/// The policy on empty files. A source that holds anything is copied. An
/// empty source is copied only where empty goldenfiles are wanted; where they
/// are not, the destination is removed, if there is one.
pub open spec fn overwrite_op(
    dest: Seq<char>,
    source: Seq<char>,
    create_empty: bool,
    file: Seq<char>,
    source_len: nat,
    dest_exists: bool,
) -> FileOpView {
    if create_empty || source_len != 0 {
        FileOpView::Copy { notice: "Updating "@ + file + "."@, from: source, to: dest }
    } else if dest_exists {
        FileOpView::Remove { path: dest }
    } else {
        FileOpView::Nothing
    }
}

/// The name of the variable that asks for the update pass.
pub const UPDATE_VARIABLE: &'static str = "UPDATE_GOLDENFILES";

/// The name under which earlier versions asked for the update pass.
pub const LEGACY_VARIABLE: &'static str = "REGENERATE_GOLDENFILES";

/// Whether a variable, as found in the environment, asks for the update pass:
/// it does where it is set to `1`.
pub open spec fn asks_for_update(var: Option<Seq<char>>) -> bool {
    var == Some("1"@)
}

/// What a mint does when its test ends.
#[derive(Clone, Debug, PartialEq, Eq)]
pub enum Pass {
    /// The test is failing already: no goldenfile is compared, and each is
    /// recovered, so that the failure of the test is the one to report.
    Recover(Vec<Recovery>),
    /// The update pass, with its steps.
    Update(Vec<Overwrite>),
    /// The verify pass, with its comparisons.
    Check(Vec<Comparison>),
}

/// A mint as a mathematical value.
pub struct MintView {
    /// The golden directory.
    pub path: Seq<char>,
    /// The staging directory.
    pub tempdir: Seq<char>,
    /// The registered goldenfiles, in the order of their registration.
    pub files: Seq<GoldenfileView>,
    /// Whether an empty replication becomes an empty goldenfile.
    pub create_empty: bool,
}

impl MintView {
    /// The mint with one more goldenfile at the end of its registry.
    pub open spec fn with(self, goldenfile: GoldenfileView) -> MintView {
        MintView { files: self.files.push(goldenfile), ..self }
    }
}

/// A mint keeps the goldenfiles of one test.
///
/// It knows the golden directory, where the goldenfiles are committed, and the
/// staging directory, which lives as long as the test. It neither creates nor
/// reads either of them.
pub struct Mint {
    path: String,
    tempdir: String,
    files: Vec<Goldenfile>,
    create_empty: bool,
}

impl View for Mint {
    type V = MintView;

    closed spec fn view(&self) -> MintView {
        MintView {
            path: self.path@,
            tempdir: self.tempdir@,
            files: registry_view(self.files@),
            create_empty: self.create_empty,
        }
    }
}

/// A variable of the environment as a mathematical value.
pub open spec fn text_of(var: Option<&str>) -> Option<Seq<char>> {
    match var {
        Some(value) => Some(value@),
        None => None,
    }
}

/// Tests whether a variable asks for the update pass.
fn is_set(var: Option<&str>) -> (set: bool)
    ensures
        set == asks_for_update(text_of(var)),
{
    match var {
        Some(value) => {
            proof {
                reveal_strlit("1");
            }
            if value.unicode_len() == 1 {
                let set = value.get_char(0) == '1';
                assert(set == (value@ =~= "1"@));
                set
            } else {
                false
            }
        },
        None => false,
    }
}

impl Mint {
    /// Every registered path is relative.
    #[verifier::type_invariant]
    spec fn all_relative(&self) -> bool {
        forall|i: int| 0 <= i < self.files@.len() ==> is_relative_path(#[trigger] self.files@[i].file@)
    }

    /// A mint with an empty registry.
    pub fn new_internal(path: &str, tempdir: &str, create_empty: bool) -> (mint: Mint)
        ensures
            mint@ == (MintView {
                path: path@,
                tempdir: tempdir@,
                files: Seq::empty(),
                create_empty,
            }),
    {
        let mint = Mint {
            path: path.to_owned(),
            tempdir: tempdir.to_owned(),
            files: Vec::new(),
            create_empty,
        };
        assert(registry_view(mint.files@) =~= Seq::empty());
        mint
    }

    /// Registers a goldenfile at the given location and tells where in the
    /// staging directory its path leads. A path that is not relative is rejected,
    /// and the registry stays as it was.
    pub fn register_goldenfile_with_differ_and_relation(
        &mut self,
        path: &str,
        differ: Differ,
        relation: GoldenfileLocation,
    ) -> (staged: Result<String, InvalidInput>)
        ensures
            match staged {
                Ok(abs_path) => {
                    &&& is_relative_path(path@)
                    &&& abs_path@ == joined_path(old(self)@.tempdir, path@)
                    &&& final(self)@ == old(self)@.with(
                        GoldenfileView { file: path@, differ, location: relation },
                    )
                },
                Err(_) => !is_relative_path(path@) && final(self)@ == old(self)@,
            },
    {
        proof {
            use_type_invariant(&*self);
        }
        let relative = is_relative(path);
        let goldenfile = Goldenfile { file: path.to_owned(), differ, location: relation };
        let ghost before = self.files@;
        // The registry is taken out while it grows, so that the mint is whole at
        // every moment.
        let mut files: Vec<Goldenfile> = Vec::new();
        core::mem::swap(&mut self.files, &mut files);
        let entered = enter(&mut files, goldenfile, relative);
        core::mem::swap(&mut self.files, &mut files);
        match entered {
            Ok(()) => {
                assert(registry_view(self.files@) =~= registry_view(before).push(goldenfile@));
                Ok(join(self.tempdir.as_str(), path))
            },
            Err(e) => Err(e),
        }
    }

    /// Plans the verify pass: one comparison for each registered goldenfile, in
    /// the order of registration. A differ that finds a difference ends the
    /// pass and fails the test.
    pub fn check_goldenfiles(&self) -> (plan: Vec<Comparison>)
        ensures
            plan@.len() == self@.files.len(),
            forall|i: int|
                0 <= i < plan@.len() ==> (#[trigger] plan@[i])@ == comparison_of(
                    self@,
                    self@.files[i],
                ),
    {
        let mut plan: Vec<Comparison> = Vec::new();
        let mut i: usize = 0;
        while i < self.files.len()
            invariant
                i <= self.files@.len(),
                plan@.len() == i,
                forall|k: int|
                    0 <= k < i ==> (#[trigger] plan@[k])@ == comparison_of(
                        self@,
                        self@.files[k],
                    ),
            decreases self.files@.len() - i,
        {
            let entry = &self.files[i];
            let orig = join(self.path.as_str(), entry.file.as_str());
            let temp = join(self.tempdir.as_str(), entry.file.as_str());
            let (golden, new) = match entry.location {
                GoldenfileLocation::Original => (orig, temp),
                GoldenfileLocation::Temporary => (temp, orig),
            };
            plan.push(
                Comparison {
                    file: entry.file.clone(),
                    differ: entry.differ,
                    location: entry.location,
                    golden,
                    new,
                },
            );
            i += 1;
        }
        plan
    }

    /// Plans what is done for a test that is failing already: one recovery for
    /// each registered goldenfile, in the order of registration. No differ is
    /// called.
    pub fn recover_goldenfiles(&self) -> (plan: Vec<Recovery>)
        ensures
            plan@.len() == self@.files.len(),
            forall|i: int|
                0 <= i < plan@.len() ==> recovers(
                    #[trigger] plan@[i],
                    comparison_of(self@, self@.files[i]),
                ),
    {
        let comparisons = self.check_goldenfiles();
        let mut plan: Vec<Recovery> = Vec::new();
        let mut i: usize = 0;
        while i < comparisons.len()
            invariant
                i <= comparisons@.len(),
                comparisons@.len() == self@.files.len(),
                plan@.len() == i,
                forall|k: int|
                    0 <= k < comparisons@.len() ==> (#[trigger] comparisons@[k])@ == comparison_of(
                        self@,
                        self@.files[k],
                    ),
                forall|k: int|
                    0 <= k < i ==> recovers(
                        #[trigger] plan@[k],
                        comparison_of(self@, self@.files[k]),
                    ),
            decreases comparisons@.len() - i,
        {
            plan.push(comparisons[i].recovery());
            i += 1;
        }
        plan
    }

    /// Plans the update pass: one step for each registered goldenfile, in the
    /// order of registration. What each step does to its destination is decided
    /// by [`Mint::overwrite_file`] when the step is taken.
    pub fn update_goldenfiles(&self) -> (plan: Vec<Overwrite>)
        ensures
            plan@.len() == self@.files.len(),
            forall|i: int|
                0 <= i < plan@.len() ==> (#[trigger] plan@[i])@ == overwrite_of(
                    self@,
                    self@.files[i],
                ),
    {
        let mut plan: Vec<Overwrite> = Vec::new();
        let mut i: usize = 0;
        while i < self.files.len()
            invariant
                i <= self.files@.len(),
                plan@.len() == i,
                forall|k: int|
                    0 <= k < i ==> (#[trigger] plan@[k])@ == overwrite_of(self@, self@.files[k]),
            decreases self.files@.len() - i,
        {
            let entry = &self.files[i];
            plan.push(
                Overwrite {
                    file: entry.file.clone(),
                    dest: join(self.path.as_str(), entry.file.as_str()),
                    source: join(self.tempdir.as_str(), entry.file.as_str()),
                },
            );
            i += 1;
        }
        plan
    }

    /// Finds the directory that has to exist before a file is created at
    /// `abs_path` in the staging directory.
    fn subdirectory(&self, abs_path: &str) -> (named: Option<String>)
        ensures
            names_subdirectory(named, self@.tempdir, abs_path@),
    {
        match parent(abs_path) {
            Some(abs_parent) => if same(abs_parent.as_str(), self.tempdir.as_str()) {
                None
            } else {
                Some(abs_parent)
            },
            None => None,
        }
    }

    /// Registers a goldenfile in its original location.
    pub fn register_goldenfile_with_differ(&mut self, path: &str, differ: Differ) -> (staged: Result<
        String,
        InvalidInput,
    >)
        ensures
            match staged {
                Ok(abs_path) => {
                    &&& is_relative_path(path@)
                    &&& abs_path@ == joined_path(old(self)@.tempdir, path@)
                    &&& final(self)@ == old(self)@.with(
                        GoldenfileView { file: path@, differ, location: GoldenfileLocation::Original },
                    )
                },
                Err(_) => !is_relative_path(path@) && final(self)@ == old(self)@,
            },
    {
        self.register_goldenfile_with_differ_and_relation(
            path,
            differ,
            GoldenfileLocation::Original,
        )
    }

    /// Registers a new goldenfile and tells where its file is to be created.
    ///
    /// The caller creates the subdirectory and the file, and reports with
    /// [`Mint::settle_goldenfile`] whether the file came to be.
    pub fn new_goldenfile_with_differ(&mut self, path: &str, differ: Differ) -> (created: Result<
        NewGoldenfile,
        InvalidInput,
    >)
        ensures
            match created {
                Ok(new) => {
                    &&& is_relative_path(path@)
                    &&& new.path@ == joined_path(old(self)@.tempdir, path@)
                    &&& names_subdirectory(new.subdirectory, old(self)@.tempdir, new.path@)
                    &&& final(self)@ == old(self)@.with(
                        GoldenfileView { file: path@, differ, location: GoldenfileLocation::Original },
                    )
                },
                Err(_) => !is_relative_path(path@) && final(self)@ == old(self)@,
            },
    {
        let abs_path = match self.register_goldenfile_with_differ(path, differ) {
            Ok(abs_path) => abs_path,
            Err(e) => {
                return Err(e);
            },
        };
        let subdirectory = self.subdirectory(abs_path.as_str());
        Ok(NewGoldenfile { path: abs_path, subdirectory })
    }

    /// Closes what [`Mint::new_goldenfile_with_differ`] began. Where the file
    /// could not be created, the goldenfile registered last leaves the registry,
    /// so that the end of the test does not look for it.
    pub fn settle_goldenfile(&mut self, created: bool)
        ensures
            created || old(self)@.files.len() == 0 ==> final(self)@ == old(self)@,
            !created && old(self)@.files.len() > 0 ==> final(self)@ == (MintView {
                files: old(self)@.files.drop_last(),
                ..old(self)@
            }),
    {
        if !created {
            proof {
                use_type_invariant(&*self);
            }
            let ghost before = self.files@;
            let mut files: Vec<Goldenfile> = Vec::new();
            core::mem::swap(&mut self.files, &mut files);
            files.pop();
            core::mem::swap(&mut self.files, &mut files);
            assert(before.len() > 0 ==> registry_view(self.files@) =~= registry_view(
                before,
            ).drop_last());
        }
    }

    /// Registers a goldenfile that is moved to the staging directory, where the
    /// test is expected to put it back, and tells what to move.
    ///
    /// The caller creates the subdirectory, copies `gold` to `temp` and removes
    /// `gold`. Where any of this fails, the goldenfile stays registered.
    pub fn move_goldenfile_with_differ(&mut self, path: &str, differ: Differ) -> (moved: Result<
        Relocation,
        InvalidInput,
    >)
        ensures
            match moved {
                Ok(relocation) => {
                    &&& is_relative_path(path@)
                    &&& relocation.gold@ == joined_path(old(self)@.path, path@)
                    &&& relocation.temp@ == joined_path(old(self)@.tempdir, path@)
                    &&& names_subdirectory(
                        relocation.subdirectory,
                        old(self)@.tempdir,
                        relocation.temp@,
                    )
                    &&& final(self)@ == old(self)@.with(
                        GoldenfileView { file: path@, differ, location: GoldenfileLocation::Temporary },
                    )
                },
                Err(_) => !is_relative_path(path@) && final(self)@ == old(self)@,
            },
    {
        let gold = join(self.path.as_str(), path);
        let temp = match self.register_goldenfile_with_differ_and_relation(
            path,
            differ,
            GoldenfileLocation::Temporary,
        ) {
            Ok(temp) => temp,
            Err(e) => {
                return Err(e);
            },
        };
        let subdirectory = self.subdirectory(temp.as_str());
        Ok(Relocation { gold, temp, subdirectory })
    }

    /// Decides what one step of the update pass does to its destination, from
    /// the length of the source and from whether the destination exists.
    pub fn overwrite_file(
        dest: &str,
        source: &str,
        create_empty: bool,
        file: &str,
        source_len: u64,
        dest_exists: bool,
    ) -> (op: FileOp)
        ensures
            op@ == overwrite_op(dest@, source@, create_empty, file@, source_len as nat, dest_exists),
    {
        let empty = source_len == 0;
        if create_empty || !empty {
            let notice = String::from_str("Updating ").concat(file).concat(".");
            FileOp::Copy { notice, from: source.to_owned(), to: dest.to_owned() }
        } else if dest_exists {
            FileOp::Remove { path: dest.to_owned() }
        } else {
            FileOp::Nothing
        }
    }

    /// Decides what happens when the test ends, and plans it.
    ///
    /// `panicking` says whether the test is failing already: then the
    /// goldenfiles are recovered, whatever the variables say. The two variables
    /// are given as found in the environment under [`LEGACY_VARIABLE`] and
    /// [`UPDATE_VARIABLE`]: either of them asks for the update pass, and
    /// without them the goldenfiles are verified.
    pub fn on_drop(&self, panicking: bool, legacy_var: Option<&str>, update_var: Option<&str>) -> (pass:
        Pass)
        ensures
            match pass {
                Pass::Recover(plan) => {
                    &&& panicking
                    &&& plan@.len() == self@.files.len()
                    &&& forall|i: int|
                        0 <= i < plan@.len() ==> recovers(
                            #[trigger] plan@[i],
                            comparison_of(self@, self@.files[i]),
                        )
                },
                Pass::Update(plan) => {
                    &&& !panicking
                    &&& asks_for_update(text_of(legacy_var)) || asks_for_update(text_of(update_var))
                    &&& plan@.len() == self@.files.len()
                    &&& forall|i: int|
                        0 <= i < plan@.len() ==> (#[trigger] plan@[i])@ == overwrite_of(
                            self@,
                            self@.files[i],
                        )
                },
                Pass::Check(plan) => {
                    &&& !panicking
                    &&& !asks_for_update(text_of(legacy_var))
                    &&& !asks_for_update(text_of(update_var))
                    &&& plan@.len() == self@.files.len()
                    &&& forall|i: int|
                        0 <= i < plan@.len() ==> (#[trigger] plan@[i])@ == comparison_of(
                            self@,
                            self@.files[i],
                        )
                },
            },
    {
        if panicking {
            return Pass::Recover(self.recover_goldenfiles());
        }
        if is_set(legacy_var) || is_set(update_var) {
            Pass::Update(self.update_goldenfiles())
        } else {
            Pass::Check(self.check_goldenfiles())
        }
    }

    /// Create a new goldenfile mint, which keeps empty goldenfiles.
    pub fn new(path: &str, tempdir: &str) -> (mint: Mint)
        ensures
            mint@ == (MintView { path: path@, tempdir: tempdir@, files: Seq::empty(), create_empty: true }),
    {
        Self::new_internal(path, tempdir, true)
    }

    /// Create a new goldenfile mint. Goldenfiles will only be created when
    /// non-empty.
    pub fn new_nonempty(path: &str, tempdir: &str) -> (mint: Mint)
        ensures
            mint@ == (MintView {
                path: path@,
                tempdir: tempdir@,
                files: Seq::empty(),
                create_empty: false,
            }),
    {
        Self::new_internal(path, tempdir, false)
    }

    /// Registers a goldenfile in its original location, with the differ that
    /// goes with its extension.
    pub fn register_goldenfile(&mut self, path: &str) -> (staged: Result<String, InvalidInput>)
        ensures
            match staged {
                Ok(abs_path) => {
                    &&& is_relative_path(path@)
                    &&& abs_path@ == joined_path(old(self)@.tempdir, path@)
                    &&& final(self)@ == old(self)@.with(
                        GoldenfileView {
                            file: path@,
                            differ: differ_for(path_extension(path@)),
                            location: GoldenfileLocation::Original,
                        },
                    )
                },
                Err(_) => !is_relative_path(path@) && final(self)@ == old(self)@,
            },
    {
        self.register_goldenfile_with_differ(path, get_differ_for_path(path))
    }

    /// Registers a new goldenfile with the differ that goes with its
    /// extension, and tells where its file is to be created.
    pub fn new_goldenfile(&mut self, path: &str) -> (created: Result<NewGoldenfile, InvalidInput>)
        ensures
            match created {
                Ok(new) => {
                    &&& is_relative_path(path@)
                    &&& new.path@ == joined_path(old(self)@.tempdir, path@)
                    &&& names_subdirectory(new.subdirectory, old(self)@.tempdir, new.path@)
                    &&& final(self)@ == old(self)@.with(
                        GoldenfileView {
                            file: path@,
                            differ: differ_for(path_extension(path@)),
                            location: GoldenfileLocation::Original,
                        },
                    )
                },
                Err(_) => !is_relative_path(path@) && final(self)@ == old(self)@,
            },
    {
        self.new_goldenfile_with_differ(path, get_differ_for_path(path))
    }

    /// Registers a goldenfile that is moved to the staging directory, with the
    /// differ that goes with its extension, and tells what to move.
    pub fn move_goldenfile(&mut self, path: &str) -> (moved: Result<Relocation, InvalidInput>)
        ensures
            match moved {
                Ok(relocation) => {
                    &&& is_relative_path(path@)
                    &&& relocation.gold@ == joined_path(old(self)@.path, path@)
                    &&& relocation.temp@ == joined_path(old(self)@.tempdir, path@)
                    &&& names_subdirectory(
                        relocation.subdirectory,
                        old(self)@.tempdir,
                        relocation.temp@,
                    )
                    &&& final(self)@ == old(self)@.with(
                        GoldenfileView {
                            file: path@,
                            differ: differ_for(path_extension(path@)),
                            location: GoldenfileLocation::Temporary,
                        },
                    )
                },
                Err(_) => !is_relative_path(path@) && final(self)@ == old(self)@,
            },
    {
        self.move_goldenfile_with_differ(path, get_differ_for_path(path))
    }

    /// The golden directory.
    pub fn path(&self) -> (path: &str)
        ensures
            path@ == self@.path,
    {
        self.path.as_str()
    }

    /// The staging directory.
    pub fn tempdir(&self) -> (tempdir: &str)
        ensures
            tempdir@ == self@.tempdir,
    {
        self.tempdir.as_str()
    }

    /// Whether an empty replication becomes an empty goldenfile.
    pub fn create_empty(&self) -> (create_empty: bool)
        ensures
            create_empty == self@.create_empty,
    {
        self.create_empty
    }

    /// The registered goldenfiles, in the order of their registration. The
    /// path of each of them is relative.
    pub fn files(&self) -> (files: &Vec<Goldenfile>)
        ensures
            registry_view(files@) == self@.files,
            forall|i: int|
                0 <= i < self@.files.len() ==> is_relative_path((#[trigger] self@.files[i]).file),
    {
        proof {
            use_type_invariant(self);
        }
        &self.files
    }
}

} // verus!
