//! Linking stages into a program, looking up its uniforms, update scopes, and
//! the release of the backend resource.

use crate::stage::{
    FragmentShader, GeometryShader, HasStage, Stage, TessellationControlShader,
    TessellationEvaluationShader, VertexShader,
};
use crate::uniform::{
    string_name, typed_uniform, HasUniform, Uniform, UniformKey, UniformName, Uniformable,
};
use vstd::prelude::*;

verus! {

/// What a graphics backend implements so that stages can be linked into a
/// program and the program's uniforms written.
///
/// Of what an implementation returns only the uniform lookup is described: it
/// depends on the program and the name alone. For the other calls the
/// functions of this library say what holds whatever comes back.
pub trait HasProgram: HasStage + HasUniform {
    /// The backend's program resource.
    type Program;

    /// Links the stages; the tessellation stages come as a control and
    /// evaluation pair or not at all.
    fn new_program(
        tess: Option<(&Self::AStage, &Self::AStage)>,
        vertex: &Self::AStage,
        geometry: Option<&Self::AStage>,
        fragment: &Self::AStage,
    ) -> Result<Self::Program, ProgramError>;

    /// Releases a program resource. It is called while a value is dropped,
    /// so it must not unwind.
    fn free_program(program: &mut Self::Program);

    /// The slot that the uniform `key` has in `program`, or nothing when the
    /// program has no such uniform (for instance when it was optimized out).
    /// A backend's lookup is a function of these two alone; the default
    /// body leaves that function unspecified.
    closed spec fn uniform_slot(program: Self::Program, key: UniformKey) -> Option<Self::U> {
        arbitrary()
    }

    /// Looks up a uniform slot; nothing when the program has no such uniform.
    fn map_uniform(program: &Self::Program, name: UniformName) -> (r: Option<Self::U>)
        ensures
            r == Self::uniform_slot(*program, name.key()),
    ;

    /// Opens a region in which the program's uniforms may be written.
    fn start_uniform_update(program: &Self::Program);

    /// Closes the region opened by `start_uniform_update`.
    fn end_uniform_update(program: &Self::Program);
}

/// Why no program was made.
#[derive(Debug, Clone, PartialEq, Eq)]
pub enum ProgramError {
    /// The backend could not link the stages; the text is its diagnostic.
    LinkFailed(String),
}

/// A linked program resource. It is released, once, when this value goes out
/// of scope.
pub struct LinkedProgram<C: HasProgram> {
    raw: C::Program,
}

impl<C: HasProgram> LinkedProgram<C> {
    /// The resource this value owns.
    pub closed spec fn view_raw(&self) -> C::Program {
        self.raw
    }

    /// Takes ownership of a linked resource.
    pub fn new(raw: C::Program) -> (r: Self)
        ensures
            r.view_raw() == raw,
    {
        LinkedProgram { raw }
    }

    /// The backend resource.
    pub fn raw(&self) -> (r: &C::Program)
        ensures
            *r == self.view_raw(),
    {
        &self.raw
    }

    /// Resolves the uniform called `name`, typed by the values it takes.
    pub fn uniform<T: Uniformable>(&self, name: &str) -> (r: Option<Uniform<C, T>>)
        ensures
            r is None <==> C::uniform_slot(self.view_raw(), UniformKey::Named(name@)) is None,
            r is Some ==> r->Some_0.repr == C::uniform_slot(
                self.view_raw(),
                UniformKey::Named(name@),
            )->Some_0,
    {
        let resolved = C::map_uniform(&self.raw, string_name(name));
        typed_uniform(resolved)
    }

    /// Runs `f` inside an update scope of this resource.
    pub fn update<F: Fn()>(&self, f: F)
        requires
            f.requires(()),
        ensures
            f.ensures((), ()),
    {
        C::start_uniform_update(&self.raw);
        f();
        C::end_uniform_update(&self.raw);
    }
}

impl<C: HasProgram> Drop for LinkedProgram<C> {
    /// Relies on the backend's `free_program` returning without unwinding.
    #[verifier::external_body]
    fn drop(&mut self)
        opens_invariants none
        no_unwind
    {
        C::free_program(&mut self.raw);
    }
}

/// A linked program together with the uniform interface that was built
/// against it.
pub struct Program<C: HasProgram, U> {
    pub repr: LinkedProgram<C>,
    pub uniforms: U,
}

/// The diagnostic given when only one of the two tessellation stages is
/// supplied.
pub open spec fn unpaired_tessellation_message() -> Seq<char> {
    "tessellation control and evaluation stages must be given together"@
}

/// The backend's own stages that a link is given: the tessellation pair and
/// the geometry stage are kept, or left out, as they come.
pub fn link_arguments<'a, C: HasProgram>(
    tess: Option<
        (&'a Stage<C, TessellationControlShader>, &'a Stage<C, TessellationEvaluationShader>),
    >,
    geometry: Option<&'a Stage<C, GeometryShader>>,
) -> (r: (Option<(&'a C::AStage, &'a C::AStage)>, Option<&'a C::AStage>))
    ensures
        r.0 is Some <==> tess is Some,
        tess is Some ==> r.0->Some_0.0 == tess->Some_0.0.repr && r.0->Some_0.1
            == tess->Some_0.1.repr,
        r.1 is Some <==> geometry is Some,
        geometry is Some ==> r.1->Some_0 == geometry->Some_0.repr,
{
    let tess_repr = match tess {
        Some((tcs, tes)) => Some((&tcs.repr, &tes.repr)),
        None => None,
    };
    let geometry_repr = match geometry {
        Some(g) => Some(&g.repr),
        None => None,
    };
    (tess_repr, geometry_repr)
}

/// Pairs the two tessellation stages: both present make a pair, both absent
/// make none, and one without the other is an error.
pub fn pair_tessellation<'a, C: HasStage>(
    control: Option<&'a Stage<C, TessellationControlShader>>,
    evaluation: Option<&'a Stage<C, TessellationEvaluationShader>>,
) -> (r: Result<
    Option<(&'a Stage<C, TessellationControlShader>, &'a Stage<C, TessellationEvaluationShader>)>,
    ProgramError,
>)
    ensures
        r is Err <==> (control is Some != evaluation is Some),
        r is Err ==> (r->Err_0 matches ProgramError::LinkFailed(m) && m@
            == unpaired_tessellation_message()),
        r is Ok ==> (r->Ok_0 is Some <==> control is Some),
        r is Ok && r->Ok_0 is Some ==> r->Ok_0->Some_0 == (control->Some_0, evaluation->Some_0),
{
    match (control, evaluation) {
        (Some(tcs), Some(tes)) => Ok(Some((tcs, tes))),
        (None, None) => Ok(None),
        _ => {
            let m = "tessellation control and evaluation stages must be given together".to_owned();
            proof {
                reveal_strlit("tessellation control and evaluation stages must be given together");
            }
            Err(ProgramError::LinkFailed(m))
        },
    }
}

impl<C: HasProgram, U> Program<C, U> {
    /// Completes a program from the outcome of linking: a link error is
    /// handed back as it is; a resource is wrapped, and the uniform interface
    /// is what `f` builds against it inside an update scope.
    pub fn from_link<F: Fn(&LinkedProgram<C>) -> U>(
        linked: Result<C::Program, ProgramError>,
        f: F,
    ) -> (r: Result<Self, ProgramError>)
        requires
            forall|p: &LinkedProgram<C>| #[trigger] f.requires((p,)),
        ensures
            linked is Err ==> r is Err && r->Err_0 == linked->Err_0,
            linked is Ok <==> r is Ok,
            linked is Ok ==> r->Ok_0.repr.view_raw() == linked->Ok_0 && f.ensures(
                (&r->Ok_0.repr,),
                r->Ok_0.uniforms,
            ),
    {
        match linked {
            Ok(raw) => {
                let repr = LinkedProgram::new(raw);
                C::start_uniform_update(repr.raw());
                let uniforms = f(&repr);
                C::end_uniform_update(repr.raw());
                Ok(Program { repr, uniforms })
            },
            Err(e) => Err(e),
        }
    }

    /// Links the stages with the backend and builds the uniform interface
    /// with `f`. On a link error no program exists and the error is returned.
    pub fn new<F: Fn(&LinkedProgram<C>) -> U>(
        tess: Option<
            (&Stage<C, TessellationControlShader>, &Stage<C, TessellationEvaluationShader>),
        >,
        vertex: &Stage<C, VertexShader>,
        geometry: Option<&Stage<C, GeometryShader>>,
        fragment: &Stage<C, FragmentShader>,
        f: F,
    ) -> (r: Result<Self, ProgramError>)
        requires
            forall|p: &LinkedProgram<C>| #[trigger] f.requires((p,)),
        ensures
            r is Ok ==> f.ensures((&r->Ok_0.repr,), r->Ok_0.uniforms),
    {
        let (tess_repr, geometry_repr) = link_arguments(tess, geometry);
        let linked = C::new_program(tess_repr, &vertex.repr, geometry_repr, &fragment.repr);
        Self::from_link(linked, f)
    }

    /// Like `new`, with the two tessellation stages given one by one. When
    /// exactly one of them is present it fails before anything is linked.
    pub fn from_stages<F: Fn(&LinkedProgram<C>) -> U>(
        control: Option<&Stage<C, TessellationControlShader>>,
        evaluation: Option<&Stage<C, TessellationEvaluationShader>>,
        vertex: &Stage<C, VertexShader>,
        geometry: Option<&Stage<C, GeometryShader>>,
        fragment: &Stage<C, FragmentShader>,
        f: F,
    ) -> (r: Result<Self, ProgramError>)
        requires
            forall|p: &LinkedProgram<C>| #[trigger] f.requires((p,)),
        ensures
            control is Some != evaluation is Some ==> (r matches Err(ProgramError::LinkFailed(m))
                && m@ == unpaired_tessellation_message()),
            r is Ok ==> f.ensures((&r->Ok_0.repr,), r->Ok_0.uniforms),
    {
        match pair_tessellation(control, evaluation) {
            Ok(tess) => Self::new(tess, vertex, geometry, fragment, f),
            Err(e) => Err(e),
        }
    }

    /// Resolves the uniform called `name` in this program.
    pub fn uniform<T: Uniformable>(&self, name: &str) -> (r: Option<Uniform<C, T>>)
        ensures
            r is None <==> C::uniform_slot(self.repr.view_raw(), UniformKey::Named(name@)) is None,
            r is Some ==> r->Some_0.repr == C::uniform_slot(
                self.repr.view_raw(),
                UniformKey::Named(name@),
            )->Some_0,
    {
        self.repr.uniform(name)
    }

    /// Runs `f` inside an update scope of this program.
    pub fn update<F: Fn()>(&self, f: F)
        requires
            f.requires(()),
        ensures
            f.ensures((), ()),
    {
        self.repr.update(f)
    }
}

} // verus!
