//! Shader programs.

use crate::error::AssetError;
use crate::renderer::{GpuCommand, ResourceKind};
use vstd::prelude::*;

verus! {

/// A linked shader program on the GPU.
#[derive(Clone, Copy, Debug, PartialEq, Eq, Structural)]
pub struct Shader {
    program: u32,
}

/// The steps of building a shader program.
#[derive(Clone, Copy, Debug, PartialEq, Eq, Structural)]
pub enum ShaderStage {
    Vertex,
    Fragment,
    Program,
}

/// The steps that went wrong, in the order they were taken.
pub open spec fn failures(vertex_compiled: bool, fragment_compiled: bool, linked: bool) -> Seq<
    ShaderStage,
> {
    (if vertex_compiled {
        Seq::<ShaderStage>::empty()
    } else {
        seq![ShaderStage::Vertex]
    }) + (if fragment_compiled {
        Seq::<ShaderStage>::empty()
    } else {
        seq![ShaderStage::Fragment]
    }) + (if linked {
        Seq::<ShaderStage>::empty()
    } else {
        seq![ShaderStage::Program]
    })
}

impl Shader {
    /// The name the driver gave the program.
    pub closed spec fn name(&self) -> u32 {
        self.program
    }

    /// Wraps the program the driver named `program`. The driver names no
    /// program 0: that name means it made none.
    pub fn new(program: u32) -> (made: Result<Shader, AssetError>)
        ensures
            program == 0 ==> made == Err::<Shader, AssetError>(AssetError::AllocationFailed),
            program != 0 ==> made is Ok && made->Ok_0.name() == program,
    {
        if program == 0 {
            Err(AssetError::AllocationFailed)
        } else {
            Ok(Shader { program })
        }
    }

    /// The steps of a build whose info log is worth showing: those that did
    /// not succeed.
    pub fn failed_stages(vertex_compiled: bool, fragment_compiled: bool, linked: bool) -> (stages:
        Vec<ShaderStage>)
        ensures
            stages@ == failures(vertex_compiled, fragment_compiled, linked),
    {
        let mut stages: Vec<ShaderStage> = Vec::new();
        if !vertex_compiled {
            stages.push(ShaderStage::Vertex);
        }
        if !fragment_compiled {
            stages.push(ShaderStage::Fragment);
        }
        if !linked {
            stages.push(ShaderStage::Program);
        }
        assert(stages@ =~= failures(vertex_compiled, fragment_compiled, linked));
        stages
    }

    /// The name the driver gave the program.
    pub fn program(&self) -> (program: u32)
        ensures
            program == self.name(),
    {
        self.program
    }

    /// The command that puts the program in use.
    pub fn bind(&self) -> (command: GpuCommand)
        ensures
            command == GpuCommand::UseProgram(self.name()),
    {
        GpuCommand::UseProgram(self.program)
    }

    /// The command that puts no program in use.
    pub fn unbind(&self) -> (command: GpuCommand)
        ensures
            command == GpuCommand::UseProgram(0),
    {
        GpuCommand::UseProgram(0)
    }

    /// The command that gives the program back to the driver.
    pub fn cleanup(self) -> (command: GpuCommand)
        ensures
            command == (GpuCommand::Delete { kind: ResourceKind::ShaderProgram, id: self.name() }),
    {
        GpuCommand::Delete { kind: ResourceKind::ShaderProgram, id: self.program }
    }
}

} // verus!
