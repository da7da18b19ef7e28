//! The root: every frame of a run, kept by mode.

use vstd::prelude::*;
use vstd::string::StringExecFns;
use rustc_hash::FxHashMap;
use std::path::PathBuf;
use crate::frame::VisFrame;
use crate::fx::{name_positions, names_get, names_insert, names_new};
use crate::text::{block_all, push_block_all};

verus! {

/// `std::path::PathBuf`. Opaque here: the library only keeps the path for
/// whoever writes the output.
#[verifier::external_type_specification]
#[verifier::external_body]
pub struct ExPathBuf(PathBuf);

/// Where the text of a run is to be written.
pub enum OutputDestination {
    Stderr,
    File(PathBuf),
}

/// The frames of one mode, as the contracts see them.
pub struct ModeView {
    pub name: Seq<char>,
    pub frames: Seq<VisFrame>,
}

/// The position of the mode with the given name among the first `n` modes.
pub open spec fn mode_position(modes: Seq<ModeView>, name: Seq<char>, n: int) -> Option<int>
    decreases n,
{
    if n <= 0 {
        None
    } else if mode_position(modes, name, n - 1) is Some {
        mode_position(modes, name, n - 1)
    } else if n <= modes.len() && modes[n - 1].name == name {
        Some(n - 1)
    } else {
        None
    }
}

/// The frames of the mode with the given name, if there is such a mode.
pub open spec fn frames_of(modes: Seq<ModeView>, name: Seq<char>) -> Option<Seq<VisFrame>> {
    match mode_position(modes, name, modes.len() as int) {
        Some(i) => Some(modes[i].frames),
        None => None,
    }
}

/// The modes after `frames` were added under `name`: appended to the mode
/// of that name where there is one, else held by a new last mode.
pub open spec fn with_frames(modes: Seq<ModeView>, name: Seq<char>, frames: Seq<VisFrame>) -> Seq<
    ModeView,
> {
    match mode_position(modes, name, modes.len() as int) {
        Some(i) => modes.update(i, ModeView { name, frames: modes[i].frames + frames }),
        None => modes.push(ModeView { name, frames }),
    }
}

/// No two modes share a name.
pub open spec fn names_distinct(modes: Seq<ModeView>) -> bool {
    forall|i: int, j: int|
        0 <= i < modes.len() && 0 <= j < modes.len() && i != j ==> (#[trigger] modes[i]).name != (
        #[trigger] modes[j]).name
}

/// The text of the first `n` modes: every frame of the first mode, written
/// for that mode, then every frame of the second, and so on.
pub open spec fn modes_text(modes: Seq<ModeView>, n: nat) -> Seq<char>
    decreases n,
{
    if n == 0 {
        Seq::empty()
    } else {
        modes_text(modes, (n - 1) as nat) + block_all(modes[n - 1].frames, modes[n - 1].name)
    }
}

/// `mode_position` finds a name exactly when a mode has it, and then returns
/// a position that holds it.
pub proof fn lemma_mode_position(modes: Seq<ModeView>, name: Seq<char>, n: int)
    requires
        0 <= n <= modes.len(),
    ensures
        match mode_position(modes, name, n) {
            Some(i) => 0 <= i < n && modes[i].name == name,
            None => forall|j: int| 0 <= j < n ==> (#[trigger] modes[j]).name != name,
        },
    decreases n,
{
    if n > 0 {
        lemma_mode_position(modes, name, n - 1);
    }
}

/// Frames added under a name are found under that name, behind the frames
/// that were there; what is found under any other name stays as it was.
pub proof fn lemma_frames_kept_by_mode(
    modes: Seq<ModeView>,
    name: Seq<char>,
    frames: Seq<VisFrame>,
    other: Seq<char>,
)
    ensures
        frames_of(with_frames(modes, name, frames), name) == Some(
            match frames_of(modes, name) {
                Some(earlier) => earlier + frames,
                None => frames,
            },
        ),
        other != name ==> frames_of(with_frames(modes, name, frames), other) == frames_of(
            modes,
            other,
        ),
{
    let after = with_frames(modes, name, frames);
    lemma_mode_position(modes, name, modes.len() as int);
    lemma_position_after(modes, name, frames, name, after.len() as int);
    lemma_position_after(modes, name, frames, other, after.len() as int);
    lemma_mode_position(modes, other, modes.len() as int);
    lemma_mode_position(after, other, after.len() as int);
    lemma_mode_position(after, name, after.len() as int);
}

/// Where a name is found among the first `n` modes after frames were added
/// under `name`: where it was found before, and a new mode at the end.
proof fn lemma_position_after(
    modes: Seq<ModeView>,
    name: Seq<char>,
    frames: Seq<VisFrame>,
    wanted: Seq<char>,
    n: int,
)
    requires
        0 <= n <= with_frames(modes, name, frames).len(),
    ensures
        mode_position(with_frames(modes, name, frames), wanted, n) == (if n <= modes.len() {
            mode_position(modes, wanted, n)
        } else if mode_position(modes, wanted, modes.len() as int) is Some {
            mode_position(modes, wanted, modes.len() as int)
        } else if wanted == name {
            Some(modes.len() as int)
        } else {
            None
        }),
    decreases n,
{
    lemma_mode_position(modes, name, modes.len() as int);
    if n > 0 {
        lemma_position_after(modes, name, frames, wanted, n - 1);
    }
}

struct ModeFrames {
    name: String,
    frames: Vec<VisFrame>,
}

/// Every frame of a run, kept by mode, and where the text is to go.
pub struct VisRoot {
    modes: Vec<ModeFrames>,
    index: FxHashMap<String, usize>,
    output_destination: OutputDestination,
}

impl VisRoot {
    #[verifier::type_invariant]
    spec fn well_formed(self) -> bool {
        &&& forall|i: int|
            0 <= i < self.modes@.len() ==> {
                &&& name_positions(self.index).contains_key((#[trigger] self.modes@[i]).name@)
                &&& name_positions(self.index)[self.modes@[i].name@] == i
            }
        &&& forall|k: Seq<char>| #[trigger]
            name_positions(self.index).contains_key(k) ==> {
                &&& name_positions(self.index)[k] < self.modes@.len()
                &&& self.modes@[name_positions(self.index)[k] as int].name@ == k
            }
    }

    /// The modes, in the order in which their first frames were added.
    pub closed spec fn modes(&self) -> Seq<ModeView> {
        Seq::new(
            self.modes@.len(),
            |i: int| ModeView { name: self.modes@[i].name@, frames: self.modes@[i].frames@ },
        )
    }

    /// Where the text is to be written.
    pub closed spec fn destination(&self) -> OutputDestination {
        self.output_destination
    }

    /// The text of the whole run.
    pub open spec fn spec_render_all(&self) -> Seq<char> {
        modes_text(self.modes(), self.modes().len())
    }

    /// A root without frames that writes to the standard error stream.
    pub fn new() -> (root: VisRoot)
        ensures
            root.modes() == Seq::<ModeView>::empty(),
            root.destination() is Stderr,
    {
        let root = VisRoot {
            modes: Vec::new(),
            index: names_new(),
            output_destination: OutputDestination::Stderr,
        };
        assert(root.modes() =~= Seq::<ModeView>::empty());
        root
    }

    /// A root without frames that writes to the file at `path`.
    pub fn new_with_file<P: Into<PathBuf>>(path: P) -> (root: VisRoot)
        ensures
            root.modes() == Seq::<ModeView>::empty(),
            root.destination() matches OutputDestination::File(kept) && call_ensures(
                P::into,
                (path,),
                kept,
            ),
    {
        let root = VisRoot {
            modes: Vec::new(),
            index: names_new(),
            output_destination: OutputDestination::File(path.into()),
        };
        assert(root.modes() =~= Seq::<ModeView>::empty());
        root
    }

    /// The root with `frames` added under `mode`.
    fn with(self, mode: &str, frames: Vec<VisFrame>) -> (root: VisRoot)
        ensures
            root.modes() == with_frames(self.modes(), mode@, frames@),
            root.destination() == self.destination(),
            names_distinct(root.modes()),
    {
        proof {
            use_type_invariant(&self);
            lemma_mode_position(self.modes(), mode@, self.modes().len() as int);
        }
        let ghost before = self.modes();
        let ghost found = mode_position(before, mode@, before.len() as int);
        proof {
            if found is Some {
                let j = found->0;
                assert(self.modes@[j].name@ == mode@);
                assert(name_positions(self.index)[mode@] == j);
            }
        }
        let VisRoot { mut modes, mut index, output_destination } = self;
        let mut frames = frames;
        let ghost added = frames@;
        match names_get(&index, mode) {
            Some(i) => {
                assert(before[i as int].name == mode@);
                assert(found == Some(i as int));
                modes[i].frames.append(&mut frames);
                let root = VisRoot { modes, index, output_destination };
                assert(root.modes() =~= with_frames(before, mode@, added));
                root
            },
            None => {
                let at = modes.len();
                modes.push(ModeFrames { name: String::from_str(mode), frames });
                names_insert(&mut index, String::from_str(mode), at);
                let root = VisRoot { modes, index, output_destination };
                assert(root.modes() =~= with_frames(before, mode@, added));
                root
            },
        }
    }

    /// Adds a frame to the mode of the given name, which is made if there is
    /// none yet.
    pub fn add_frame(&mut self, mode: &str, frame: VisFrame) -> (root: &mut Self)
        ensures
            root.modes() == with_frames(old(self).modes(), mode@, seq![frame]),
            root.destination() == old(self).destination(),
            names_distinct(root.modes()),
            *final(self) == *final(root),
    {
        let mut frames = Vec::new();
        frames.push(frame);
        self.add_frames(mode, frames)
    }

    /// Adds frames to the mode of the given name, which is made if there is
    /// none yet.
    pub fn add_frames(&mut self, mode: &str, frames: Vec<VisFrame>) -> (root: &mut Self)
        ensures
            root.modes() == with_frames(old(self).modes(), mode@, frames@),
            root.destination() == old(self).destination(),
            names_distinct(root.modes()),
            *final(self) == *final(root),
    {
        let mut taken = VisRoot::new();
        std::mem::swap(self, &mut taken);
        *self = taken.with(mode, frames);
        self
    }

    /// The frames of the mode of the given name, or `None` where no frame was
    /// added under that name.
    pub fn get_frames(&self, mode: &str) -> (r: Option<&Vec<VisFrame>>)
        ensures
            match r {
                Some(frames) => frames_of(self.modes(), mode@) == Some(frames@),
                None => frames_of(self.modes(), mode@) is None,
            },
    {
        proof {
            use_type_invariant(self);
            lemma_mode_position(self.modes(), mode@, self.modes().len() as int);
        }
        let ghost found = mode_position(self.modes(), mode@, self.modes().len() as int);
        proof {
            if found is Some {
                let j = found->0;
                assert(self.modes@[j].name@ == mode@);
                assert(name_positions(self.index)[mode@] == j);
            }
        }
        match names_get(&self.index, mode) {
            Some(i) => {
                assert(self.modes()[i as int].name == mode@);
                assert(found == Some(i as int));
                Some(&self.modes[i].frames)
            },
            None => None,
        }
    }

    /// Where the text is to be written.
    pub fn output_destination(&self) -> (d: &OutputDestination)
        ensures
            *d == self.destination(),
    {
        &self.output_destination
    }

    /// Writes every frame of every mode into one text: the modes in the order
    /// in which they were first named, the frames of each in the order in
    /// which they were added.
    pub fn render_all(&self) -> (s: String)
        ensures
            s@ == self.spec_render_all(),
    {
        let mut out = String::new();
        let ghost modes = self.modes();
        let mut i: usize = 0;
        assert(out@ =~= modes_text(modes, 0));
        while i < self.modes.len()
            invariant
                0 <= i <= self.modes@.len(),
                modes == self.modes(),
                out@ == modes_text(modes, i as nat),
            decreases self.modes@.len() - i,
        {
            let entry = &self.modes[i];
            push_block_all(&mut out, &entry.frames, entry.name.as_str());
            assert(modes[i as int].name == entry.name@ && modes[i as int].frames == entry.frames@);
            assert(out@ == modes_text(modes, (i + 1) as nat));
            i += 1;
        }
        out
    }
}

impl Default for VisRoot {
    fn default() -> (root: VisRoot)
        ensures
            root.modes() == Seq::<ModeView>::empty(),
            root.destination() is Stderr,
    {
        VisRoot::new()
    }
}

} // verus!
