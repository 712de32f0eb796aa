//! The Dockerfile text DSL: a closed set of instructions accumulated in
//! order and rendered to deterministic Dockerfile text. The rendering is
//! the contract: each instruction's text, and the file's layout, is stated
//! exactly.
use vstd::prelude::*;

use crate::text::join_all;
use crate::text::spec_join;

verus! {

/// The mathematical reading of a FROM instruction.
pub struct FromImageView {
    pub image: Seq<char>,
    pub tag: Option<Seq<char>>,
}

/// The leading FROM instruction: a base image, optionally tagged.
#[derive(Debug)]
pub struct FromImage {
    image: String,
    tag: Option<String>,
}

impl View for FromImage {
    type V = FromImageView;

    closed spec fn view(&self) -> FromImageView {
        FromImageView {
            image: self.image@,
            tag: match self.tag {
                Some(t) => Some(t@),
                None => None,
            },
        }
    }
}

impl FromImage {
    pub fn image(image: &str) -> (r: Self)
        ensures
            r@.image == image@,
            r@.tag is None,
    {
        Self { image: image.to_owned(), tag: None }
    }

    pub fn with_tag(self, tag: &str) -> (r: Self)
        ensures
            r@.image == self@.image,
            r@.tag == Some(tag@),
    {
        Self { image: self.image, tag: Some(tag.to_owned()) }
    }

    /// `FROM image`, with the tag written right after the image when one is
    /// set.
    pub fn render(&self) -> (r: String)
        ensures
            r@ == spec_render_from(self@),
    {
        let base = "FROM ".to_owned().concat(self.image.as_str());
        let r = match &self.tag {
            Some(t) => base.concat(t.as_str()),
            None => base,
        };
        proof {
            assert(r@ =~= spec_render_from(self@));
        }
        r
    }
}

pub open spec fn spec_render_from(v: FromImageView) -> Seq<char> {
    "FROM "@ + v.image + (match v.tag {
        Some(t) => t,
        None => Seq::<char>::empty(),
    })
}

/// A COPY instruction: build-context path to image path.
#[derive(Debug)]
pub struct CopyInstr {
    pub from: String,
    pub to: String,
}

pub struct CopyInstrView {
    pub from: Seq<char>,
    pub to: Seq<char>,
}

impl View for CopyInstr {
    type V = CopyInstrView;

    open spec fn view(&self) -> CopyInstrView {
        CopyInstrView { from: self.from@, to: self.to@ }
    }
}

impl CopyInstr {
    pub fn new(from: &str, to: &str) -> (r: Self)
        ensures
            r@.from == from@,
            r@.to == to@,
    {
        Self { from: from.to_owned(), to: to.to_owned() }
    }
}

/// A VOLUME instruction: host path to container path.
#[derive(Debug)]
pub struct Volume {
    pub from: String,
    pub to: String,
}

pub struct VolumeView {
    pub from: Seq<char>,
    pub to: Seq<char>,
}

impl View for Volume {
    type V = VolumeView;

    open spec fn view(&self) -> VolumeView {
        VolumeView { from: self.from@, to: self.to@ }
    }
}

impl Volume {
    pub fn new(from: &str, to: &str) -> (r: Self)
        ensures
            r@.from == from@,
            r@.to == to@,
    {
        Self { from: from.to_owned(), to: to.to_owned() }
    }
}

/// A RUN instruction: one shell command.
#[derive(Debug)]
pub struct Run {
    pub cmd: String,
}

pub struct RunView {
    pub cmd: Seq<char>,
}

impl View for Run {
    type V = RunView;

    open spec fn view(&self) -> RunView {
        RunView { cmd: self.cmd@ }
    }
}

impl Run {
    pub fn new(cmd: &str) -> (r: Self)
        ensures
            r@.cmd == cmd@,
    {
        Self { cmd: cmd.to_owned() }
    }
}

/// The ENTRYPOINT instruction: the exec-form command list.
#[derive(Debug)]
pub struct EntryPoint {
    pub cmds: Vec<String>,
}

pub struct EntryPointView {
    pub cmds: Seq<Seq<char>>,
}

impl View for EntryPoint {
    type V = EntryPointView;

    open spec fn view(&self) -> EntryPointView {
        EntryPointView { cmds: self.cmds.deep_view() }
    }
}

/// The closed set of body instructions a Dockerfile holds between its FROM
/// line and its entry point.
#[derive(Debug)]
pub enum Instr {
    CopyInstr(CopyInstr),
    Volume(Volume),
    Run(Run),
}

pub enum InstrView {
    CopyInstr(CopyInstrView),
    Volume(VolumeView),
    Run(RunView),
}

impl View for Instr {
    type V = InstrView;

    open spec fn view(&self) -> InstrView {
        match self {
            Instr::CopyInstr(c) => InstrView::CopyInstr(c@),
            Instr::Volume(v) => InstrView::Volume(v@),
            Instr::Run(r) => InstrView::Run(r@),
        }
    }
}

/// One line of Dockerfile text per instruction.
pub open spec fn spec_render_instr(v: InstrView) -> Seq<char> {
    match v {
        InstrView::CopyInstr(c) => "COPY "@ + c.from + " "@ + c.to,
        InstrView::Volume(vol) => "VOLUME "@ + vol.from + " "@ + vol.to,
        InstrView::Run(r) => "RUN "@ + r.cmd,
    }
}

impl Instr {
    pub fn render(&self) -> (r: String)
        ensures
            r@ == spec_render_instr(self@),
    {
        let r = match self {
            Instr::CopyInstr(c) => "COPY ".to_owned().concat(c.from.as_str()).concat(" ").concat(
                c.to.as_str(),
            ),
            Instr::Volume(v) => "VOLUME ".to_owned().concat(v.from.as_str()).concat(" ").concat(
                v.to.as_str(),
            ),
            Instr::Run(run) => "RUN ".to_owned().concat(run.cmd.as_str()),
        };
        proof {
            assert(r@ =~= spec_render_instr(self@));
        }
        r
    }
}

/// Anything that can stand in the instruction list.
pub trait Instruction: Sized {
    /// Which instruction this value is.
    spec fn as_instr(&self) -> InstrView;

    fn to_instr(self) -> (r: Instr)
        ensures
            r@ == self.as_instr(),
    ;
}

impl Instruction for CopyInstr {
    open spec fn as_instr(&self) -> InstrView {
        InstrView::CopyInstr(self@)
    }

    fn to_instr(self) -> (r: Instr) {
        Instr::CopyInstr(self)
    }
}

impl Instruction for Volume {
    open spec fn as_instr(&self) -> InstrView {
        InstrView::Volume(self@)
    }

    fn to_instr(self) -> (r: Instr) {
        Instr::Volume(self)
    }
}

impl Instruction for Run {
    open spec fn as_instr(&self) -> InstrView {
        InstrView::Run(self@)
    }

    fn to_instr(self) -> (r: Instr) {
        Instr::Run(self)
    }
}

pub open spec fn spec_quote(s: Seq<char>) -> Seq<char> {
    "\""@ + s + "\""@
}

/// `ENTRYPOINT ["a", "b", ...]`: each command quoted, comma-separated.
pub open spec fn spec_render_entry_point(v: EntryPointView) -> Seq<char> {
    "ENTRYPOINT ["@ + spec_join(v.cmds.map_values(|c: Seq<char>| spec_quote(c)), ", "@) + "]"@
}

impl EntryPoint {
    pub fn render(&self) -> (r: String)
        ensures
            r@ == spec_render_entry_point(self@),
    {
        let n = self.cmds.len();
        let mut quoted: Vec<String> = Vec::new();
        let mut i: usize = 0;
        while i < n
            invariant
                n == self@.cmds.len(),
                i <= n,
                quoted.deep_view() =~= self@.cmds.map_values(|c: Seq<char>| spec_quote(c)).take(
                    i as int,
                ),
            decreases n - i,
        {
            let ghost pre = quoted.deep_view();
            let q = "\"".to_owned().concat(self.cmds[i].as_str()).concat("\"");
            quoted.push(q);
            proof {
                assert(quoted.deep_view() =~= pre.push(q@));
                assert(q@ =~= spec_quote(self@.cmds[i as int]));
                assert(quoted.deep_view() =~= self@.cmds.map_values(
                    |c: Seq<char>| spec_quote(c),
                ).take(i + 1));
            }
            i = i + 1;
        }
        proof {
            let m = self@.cmds.map_values(|c: Seq<char>| spec_quote(c));
            assert(m.take(n as int) =~= m);
        }
        let joined = join_all(&quoted, ", ");
        let r = "ENTRYPOINT [".to_owned().concat(joined.as_str()).concat("]");
        proof {
            assert(r@ =~= spec_render_entry_point(self@));
        }
        r
    }
}

/// The mathematical reading of a whole Dockerfile.
pub struct DockerFileView {
    pub from: FromImageView,
    pub entry_point: Option<EntryPointView>,
    pub instrs: Seq<InstrView>,
}

/// A whole Dockerfile: the FROM line, the body instructions in order, and
/// an optional entry point.
#[derive(Debug)]
pub struct DockerFile {
    from: FromImage,
    entry_point: Option<EntryPoint>,
    instrs: Vec<Instr>,
}

pub open spec fn instr_views(instrs: Seq<Instr>) -> Seq<InstrView> {
    Seq::new(instrs.len(), |i: int| instrs[i]@)
}

impl View for DockerFile {
    type V = DockerFileView;

    closed spec fn view(&self) -> DockerFileView {
        DockerFileView {
            from: self.from@,
            entry_point: match self.entry_point {
                Some(ep) => Some(ep@),
                None => None,
            },
            instrs: instr_views(self.instrs@),
        }
    }
}

/// The rendered text: the FROM line, the instruction lines, and the entry
/// point line when one is set, each ended by a newline.
pub open spec fn spec_render_docker_file(v: DockerFileView) -> Seq<char> {
    spec_render_from(v.from) + "\n"@ + spec_join(
        v.instrs.map_values(|i: InstrView| spec_render_instr(i)),
        "\n"@,
    ) + "\n"@ + (match v.entry_point {
        Some(ep) => spec_render_entry_point(ep) + "\n"@,
        None => Seq::<char>::empty(),
    })
}

impl DockerFile {
    pub fn new(from: FromImage) -> (r: Self)
        ensures
            r@.from == from@,
            r@.entry_point is None,
            r@.instrs == Seq::<InstrView>::empty(),
    {
        let r = Self { from, entry_point: None, instrs: Vec::new() };
        proof {
            assert(instr_views(r.instrs@) =~= Seq::<InstrView>::empty());
        }
        r
    }

    /// Sets the exec-form entry point.
    pub fn entry_point(self, entry_point: Vec<String>) -> (r: Self)
        ensures
            r@.from == self@.from,
            r@.instrs == self@.instrs,
            r@.entry_point == Some(EntryPointView { cmds: entry_point.deep_view() }),
    {
        let Self { from, entry_point: _, instrs } = self;
        Self { from, entry_point: Some(EntryPoint { cmds: entry_point }), instrs }
    }

    /// Appends one instruction.
    pub fn then<I: Instruction>(self, instr: I) -> (r: Self)
        ensures
            r@.from == self@.from,
            r@.entry_point == self@.entry_point,
            r@.instrs == self@.instrs.push(instr.as_instr()),
    {
        let Self { from, entry_point, instrs: mut held } = self;
        let ghost pre = instr_views(held@);
        let one = instr.to_instr();
        held.push(one);
        let r = Self { from, entry_point, instrs: held };
        proof {
            assert(instr_views(r.instrs@) =~= pre.push(one@));
        }
        r
    }

    /// The deterministic Dockerfile text of this value.
    pub fn render(&self) -> (r: String)
        ensures
            r@ == spec_render_docker_file(self@),
    {
        let n = self.instrs.len();
        let mut lines: Vec<String> = Vec::new();
        let mut i: usize = 0;
        while i < n
            invariant
                n == self@.instrs.len(),
                i <= n,
                lines.deep_view() =~= self@.instrs.map_values(
                    |v: InstrView| spec_render_instr(v),
                ).take(i as int),
            decreases n - i,
        {
            let ghost pre = lines.deep_view();
            let line = self.instrs[i].render();
            lines.push(line);
            proof {
                assert(lines.deep_view() =~= pre.push(line@));
                assert(lines.deep_view() =~= self@.instrs.map_values(
                    |v: InstrView| spec_render_instr(v),
                ).take(i + 1));
            }
            i = i + 1;
        }
        proof {
            let m = self@.instrs.map_values(|v: InstrView| spec_render_instr(v));
            assert(m.take(n as int) =~= m);
        }
        let body = join_all(&lines, "\n");
        let head = self.from.render();
        let mut text = head.concat("\n").concat(body.as_str()).concat("\n");
        let r = match &self.entry_point {
            Some(ep) => {
                let ep_line = ep.render();
                text.concat(ep_line.as_str()).concat("\n")
            },
            None => text,
        };
        proof {
            assert(r@ =~= spec_render_docker_file(self@));
        }
        r
    }
}

} // verus!
