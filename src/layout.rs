//! The fixed vertex-attribute layout of one particle record. The simulation
//! pass reads and writes all four attributes; the render pass reads the first
//! three.

use vstd::prelude::*;

verus! {

/// Bytes in one component of a record (a 32-bit float on the device).
pub const COMPONENT_BYTES: usize = 4;

/// Components in one record.
pub const STRIDE_COMPONENTS: usize = 8;

/// Bytes in one record.
pub const STRIDE_BYTES: usize = 32;

/// One named attribute of a particle record.
#[derive(Clone, Copy, PartialEq, Eq, Structural, Debug)]
pub enum Attribute {
    Position,
    Age,
    Life,
    Velocity,
}

/// The attributes in the order they are laid out in a record.
pub open spec fn layout_order() -> Seq<Attribute> {
    seq![Attribute::Position, Attribute::Age, Attribute::Life, Attribute::Velocity]
}

impl Attribute {
    pub open spec fn spec_components(self) -> usize {
        match self {
            Attribute::Position => 3,
            Attribute::Age => 1,
            Attribute::Life => 1,
            Attribute::Velocity => 3,
        }
    }

    pub open spec fn spec_offset(self) -> usize {
        match self {
            Attribute::Position => 0,
            Attribute::Age => 3,
            Attribute::Life => 4,
            Attribute::Velocity => 5,
        }
    }

    /// Number of components of this attribute.
    pub fn components(self) -> (r: usize)
        ensures
            r == self.spec_components(),
    {
        match self {
            Attribute::Position => 3,
            Attribute::Age => 1,
            Attribute::Life => 1,
            Attribute::Velocity => 3,
        }
    }

    /// Offset of this attribute in a record, in components.
    pub fn offset(self) -> (r: usize)
        ensures
            r == self.spec_offset(),
    {
        match self {
            Attribute::Position => 0,
            Attribute::Age => 3,
            Attribute::Life => 4,
            Attribute::Velocity => 5,
        }
    }

    /// Offset of this attribute in a record, in bytes.
    pub fn byte_offset(self) -> (r: usize)
        ensures
            r == self.spec_offset() * COMPONENT_BYTES,
    {
        self.offset() * COMPONENT_BYTES
    }

    /// Name of the kernels' input bound to this attribute.
    pub fn input_name(self) -> (r: &'static str)
        ensures
            r@ == self.spec_input_name()@,
    {
        match self {
            Attribute::Position => "i_Position",
            Attribute::Age => "i_Age",
            Attribute::Life => "i_Life",
            Attribute::Velocity => "i_Velocity",
        }
    }

    pub open spec fn spec_input_name(self) -> &'static str {
        match self {
            Attribute::Position => "i_Position",
            Attribute::Age => "i_Age",
            Attribute::Life => "i_Life",
            Attribute::Velocity => "i_Velocity",
        }
    }

    /// Name of the simulation kernel's output captured into this attribute.
    pub fn output_name(self) -> (r: &'static str)
        ensures
            r@ == self.spec_output_name()@,
    {
        match self {
            Attribute::Position => "v_Position",
            Attribute::Age => "v_Age",
            Attribute::Life => "v_Life",
            Attribute::Velocity => "v_Velocity",
        }
    }

    pub open spec fn spec_output_name(self) -> &'static str {
        match self {
            Attribute::Position => "v_Position",
            Attribute::Age => "v_Age",
            Attribute::Life => "v_Life",
            Attribute::Velocity => "v_Velocity",
        }
    }
}

/// The attributes that the simulation pass binds, in layout order.
pub fn update_attributes() -> (r: Vec<Attribute>)
    ensures
        r@ == layout_order(),
{
    let r = vec![Attribute::Position, Attribute::Age, Attribute::Life, Attribute::Velocity];
    assert(r@ =~= layout_order());
    r
}

/// The attributes that the render pass binds: all but the velocity.
pub fn render_attributes() -> (r: Vec<Attribute>)
    ensures
        r@ == layout_order().take(3),
        !r@.contains(Attribute::Velocity),
{
    let r = vec![Attribute::Position, Attribute::Age, Attribute::Life];
    assert(r@ =~= layout_order().take(3));
    assert(r@[0] != Attribute::Velocity && r@[1] != Attribute::Velocity && r@[2]
        != Attribute::Velocity);
    r
}

/// The outputs captured by the simulation pass, in the order that mirrors the
/// record layout, so that a captured buffer is a valid input of the next pass.
pub fn feedback_varyings() -> (r: Vec<&'static str>)
    ensures
        r@.len() == layout_order().len(),
        forall|i: int| 0 <= i < r@.len() ==> r@[i]@ == (#[trigger] layout_order()[i]).spec_output_name()@,
{
    let order = update_attributes();
    let mut r: Vec<&'static str> = Vec::new();
    let mut i: usize = 0;
    while i < order.len()
        invariant
            order@ == layout_order(),
            i <= order@.len(),
            r@.len() == i,
            forall|j: int| 0 <= j < i ==> r@[j]@ == (#[trigger] layout_order()[j]).spec_output_name()@,
        decreases order@.len() - i,
    {
        r.push(order[i].output_name());
        i = i + 1;
    }
    r
}

/// The attributes tile a record: each starts where the one before it ends, the
/// first at zero and the last ends at the stride, so no two overlap.
pub proof fn lemma_layout_tiles_record()
    ensures
        layout_order()[0].spec_offset() == 0,
        forall|i: int|
            0 < i < layout_order().len() ==> (#[trigger] layout_order()[i]).spec_offset()
                == layout_order()[i - 1].spec_offset() + layout_order()[i - 1].spec_components(),
        layout_order()[3].spec_offset() + layout_order()[3].spec_components() == STRIDE_COMPONENTS,
        STRIDE_COMPONENTS * COMPONENT_BYTES == STRIDE_BYTES,
{
}

} // verus!
