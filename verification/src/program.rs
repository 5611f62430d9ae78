//! The compiled shader program seen by a material: a sink for uniform-set
//! calls. Compiling and linking shader source is the draw orchestration's
//! business outside this core; a material only sets its own uniforms on
//! the program it is handed, which is what the [`Program`] trait captures.
//! [`RecordingProgram`] is a verified in-memory implementation that logs
//! every uniform set, used by the tests.

use crate::color::Color;
use crate::context::{lemma_views_of_push, views_of};
use crate::error::CoreError;
use vstd::prelude::*;

verus! {

/// The uniform-set operations a material may issue against a compiled
/// program. The observable state is the ordered log of color uniforms set
/// so far: name and value, oldest first.
pub trait Program: Sized {
    /// The names under which color uniforms were set, oldest first. The
    /// default leaves the log abstract; a verified implementation
    /// overrides it.
    open spec fn uniform_names(&self) -> Seq<Seq<char>> {
        arbitrary()
    }

    /// The values of the color uniforms set, oldest first; entry `i` was
    /// set under `uniform_names()[i]`.
    open spec fn uniform_colors(&self) -> Seq<Color> {
        arbitrary()
    }

    /// Sets a four-component color uniform of the program. On success
    /// exactly one entry is appended to the log; on failure (for example,
    /// no uniform of that name) the log is unchanged and the error is a
    /// context error.
    fn use_uniform_color(&mut self, name: &str, value: Color) -> (r: Result<(), CoreError>)
        ensures
            match r {
                Ok(_) => {
                    &&& final(self).uniform_names() == old(self).uniform_names().push(name@)
                    &&& final(self).uniform_colors() == old(self).uniform_colors().push(value)
                },
                Err(e) => {
                    &&& e is ContextError
                    &&& final(self).uniform_names() == old(self).uniform_names()
                    &&& final(self).uniform_colors() == old(self).uniform_colors()
                },
            },
    ;
}

/// A verified in-memory program that records every uniform set and sends
/// nothing to a backend. It accepts every uniform name, unless told to
/// refuse them to exercise callers' error paths.
pub struct RecordingProgram {
    names: Vec<String>,
    colors: Vec<Color>,
    refuse_uniforms: bool,
}

impl RecordingProgram {
    /// A fresh program with an empty uniform log.
    pub fn new() -> (program: RecordingProgram)
        ensures
            program.uniform_names() == Seq::<Seq<char>>::empty(),
            program.uniform_colors() == Seq::<Color>::empty(),
    {
        let program = RecordingProgram { names: Vec::new(), colors: Vec::new(), refuse_uniforms: false };
        proof {
            assert(views_of(program.names@) =~= Seq::<Seq<char>>::empty());
        }
        program
    }

    /// Makes every later uniform set fail, as a program without the
    /// requested uniform would.
    pub fn refuse_uniforms(&mut self)
        ensures
            final(self).uniform_names() == old(self).uniform_names(),
            final(self).uniform_colors() == old(self).uniform_colors(),
    {
        self.refuse_uniforms = true;
    }

    /// How many uniform sets have been recorded.
    pub fn uniform_count(&self) -> (n: usize)
        ensures
            n == self.uniform_names().len(),
    {
        self.names.len()
    }

    /// How many uniform values have been recorded; equal to
    /// `uniform_count()` after any sequence of trait calls, since every
    /// set appends to both logs together.
    pub fn uniform_value_count(&self) -> (n: usize)
        ensures
            n == self.uniform_colors().len(),
    {
        self.colors.len()
    }

    /// The name of uniform set number `i`, oldest first.
    pub fn uniform_name(&self, i: usize) -> (name: &String)
        requires
            i < self.uniform_names().len(),
        ensures
            name@ == self.uniform_names()[i as int],
    {
        &self.names[i]
    }

    /// The value of uniform set number `i`, oldest first.
    pub fn uniform_color(&self, i: usize) -> (value: Color)
        requires
            i < self.uniform_colors().len(),
        ensures
            value == self.uniform_colors()[i as int],
    {
        self.colors[i]
    }
}

impl Program for RecordingProgram {
    closed spec fn uniform_names(&self) -> Seq<Seq<char>> {
        views_of(self.names@)
    }

    closed spec fn uniform_colors(&self) -> Seq<Color> {
        self.colors@
    }

    fn use_uniform_color(&mut self, name: &str, value: Color) -> (r: Result<(), CoreError>) {
        if self.refuse_uniforms {
            return Err(CoreError::ContextError("uniform not found in program".to_owned()));
        }
        let owned = name.to_owned();
        proof {
            lemma_views_of_push(self.names@, owned);
        }
        self.names.push(owned);
        self.colors.push(value);
        Ok(())
    }
}

} // verus!
