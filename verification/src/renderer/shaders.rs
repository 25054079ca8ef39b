//! Easy shader abstraction.
//!
//! The builder collects a shader's source, entry point and label, checks the
//! description against the conditions the backend demands, and hands back a
//! validated descriptor for the backend to compile. Only WGSL sources are
//! supported; every other language is rejected at validation time.

use vstd::prelude::*;

use crate::error::Error;

verus! {

/// Defines the language of a shader.
#[derive(Clone, Copy, Debug, PartialEq, Eq, Structural)]
pub enum ShaderSourceType {
    /// A shader written in the WGSL language.
    Wgsl,
    /// A shader written in the GLSL language; not supported yet.
    Glsl,
    /// A shader written in the HLSL language; not supported yet.
    Hlsl,
}

/// A validated shader description, ready for the render backend to compile:
/// the source is WGSL and non-empty, and a device was supplied.
#[derive(Debug)]
pub struct ShaderDescriptor {
    /// The label of the shader.
    pub label: String,
    /// The WGSL source of the shader.
    pub source: String,
    /// The entry point of the shader.
    pub entry: String,
}

/// Helps to build a shader.
#[derive(Debug)]
pub struct ShaderBuilder {
    /// The source of the shader.
    source: String,
    /// The entry point of the shader. Not used in compilation, but still a
    /// nice value to store along with this builder.
    pub entry: String,
    /// The language the shader is written in.
    source_type: ShaderSourceType,
    /// The label of the shader. An example could be `default vertex shader`.
    label: String,
    /// Whether a device to compile the shader under was supplied. The device
    /// handle itself stays with the render backend that drives this builder.
    device: bool,
}

impl ShaderBuilder {
    /// The collected shader source.
    pub closed spec fn spec_source(&self) -> Seq<char> {
        self.source@
    }

    /// The declared source language.
    pub closed spec fn spec_source_type(&self) -> ShaderSourceType {
        self.source_type
    }

    /// The declared entry point.
    pub closed spec fn spec_entry(&self) -> Seq<char> {
        self.entry@
    }

    /// The collected label.
    pub closed spec fn spec_label(&self) -> Seq<char> {
        self.label@
    }

    /// Whether a device was supplied.
    pub closed spec fn spec_device(&self) -> bool {
        self.device
    }

    /// Creates a new shader builder: no source, no label, no device, WGSL as
    /// the language, and "main" as the entry point.
    pub fn new() -> (b: Self)
        ensures
            b.spec_source() == Seq::<char>::empty(),
            b.spec_entry() == "main"@,
            b.spec_source_type() == ShaderSourceType::Wgsl,
            b.spec_label() == Seq::<char>::empty(),
            !b.spec_device(),
    {
        let b = Self {
            source: "".to_owned(),
            source_type: ShaderSourceType::Wgsl,
            entry: "main".to_owned(),
            label: "".to_owned(),
            device: false,
        };
        proof {
            reveal_strlit("");
            assert(b.spec_source() =~= Seq::<char>::empty());
            assert(b.spec_label() =~= Seq::<char>::empty());
        }
        b
    }

    /// Adds source to the shader. Required.
    pub fn with_source(self, source_type: ShaderSourceType, source: &str) -> (b: Self)
        ensures
            b.spec_source() == source@,
            b.spec_source_type() == source_type,
            b.spec_entry() == self.spec_entry(),
            b.spec_label() == self.spec_label(),
            b.spec_device() == self.spec_device(),
    {
        Self { source: source.to_owned(), source_type, ..self }
    }

    /// Gives the shader an entry point. Not used in compilation, but rather
    /// put into the builder to be used later in client code.
    pub fn with_entry_point(self, entry: &str) -> (b: Self)
        ensures
            b.spec_entry() == entry@,
            b.spec_source() == self.spec_source(),
            b.spec_source_type() == self.spec_source_type(),
            b.spec_label() == self.spec_label(),
            b.spec_device() == self.spec_device(),
    {
        Self { entry: entry.to_owned(), ..self }
    }

    /// Gives the shader a label. Not required, but highly recommended: it
    /// makes shader issues easy to debug.
    pub fn with_label(self, label: &str) -> (b: Self)
        ensures
            b.spec_label() == label@,
            b.spec_source() == self.spec_source(),
            b.spec_source_type() == self.spec_source_type(),
            b.spec_entry() == self.spec_entry(),
            b.spec_device() == self.spec_device(),
    {
        Self { label: label.to_owned(), ..self }
    }

    /// Records that a device to compile under was supplied. The backend that
    /// drives this builder keeps the device handle itself and pairs it with
    /// the validated descriptor that `compile` hands back.
    pub fn with_device(self) -> (b: Self)
        ensures
            b.spec_device(),
            b.spec_source() == self.spec_source(),
            b.spec_source_type() == self.spec_source_type(),
            b.spec_entry() == self.spec_entry(),
            b.spec_label() == self.spec_label(),
    {
        Self { device: true, ..self }
    }

    /// Validates the collected description and hands back the descriptor the
    /// backend compiles. Fails exactly when the description is unusable: a
    /// source language other than WGSL, an empty source, or a missing
    /// device, checked in that order.
    pub fn compile(self) -> (r: Result<ShaderDescriptor, Error>)
        ensures
            r is Ok <==> (self.spec_source_type() == ShaderSourceType::Wgsl
                && self.spec_source().len() > 0 && self.spec_device()),
            self.spec_source_type() != ShaderSourceType::Wgsl ==> (r matches Err(e) && e
                == Error::UnsupportedShaderType),
            self.spec_source_type() == ShaderSourceType::Wgsl && self.spec_source().len() == 0
                ==> (r matches Err(e) && e == Error::NoShaderSource),
            self.spec_source_type() == ShaderSourceType::Wgsl && self.spec_source().len() > 0
                && !self.spec_device() ==> (r matches Err(e) && e == Error::NoDeviceSupplied),
            r matches Ok(d) ==> {
                &&& d.label@ == self.spec_label()
                &&& d.source@ == self.spec_source()
                &&& d.entry@ == self.spec_entry()
            },
    {
        match self.source_type {
            ShaderSourceType::Wgsl => (),
            _ => {
                return Err(Error::UnsupportedShaderType);
            },
        }
        if self.source.as_str().is_empty() {
            return Err(Error::NoShaderSource);
        }
        if !self.device {
            return Err(Error::NoDeviceSupplied);
        }
        Ok(ShaderDescriptor { label: self.label, source: self.source, entry: self.entry })
    }
}

} // verus!
