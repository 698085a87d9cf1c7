//! Host controllers of Qualcomm platforms.

use vstd::prelude::*;

use crate::error::Error;

verus! {

/// Variant of a Qualcomm controller.
#[derive(Clone, Copy, Debug, PartialEq, Eq, Structural)]
pub enum UfsQcomVariant {
    Generic,
    Sm8550,
    Sa8255p,
}

/// A compatible string that the driver matches, and its variant.
#[derive(Clone, Copy, Debug)]
pub struct OfEntry {
    pub compatible: &'static str,
    pub variant: UfsQcomVariant,
}

/// The compatible strings that the driver matches.
pub open spec fn of_table() -> Seq<OfEntry> {
    seq![
        OfEntry { compatible: "qcom,ufshc", variant: UfsQcomVariant::Generic },
        OfEntry { compatible: "qcom,sm8550-ufshc", variant: UfsQcomVariant::Sm8550 },
        OfEntry { compatible: "qcom,sm8650-ufshc", variant: UfsQcomVariant::Sm8550 },
        OfEntry { compatible: "qcom,sa8255p-ufshc", variant: UfsQcomVariant::Sa8255p },
    ]
}

/// The compatible strings that the driver matches.
pub fn compatible_table() -> (r: Vec<OfEntry>)
    ensures
        r@ == of_table(),
{
    let mut table: Vec<OfEntry> = Vec::new();
    table.push(OfEntry { compatible: "qcom,ufshc", variant: UfsQcomVariant::Generic });
    table.push(OfEntry { compatible: "qcom,sm8550-ufshc", variant: UfsQcomVariant::Sm8550 });
    table.push(OfEntry { compatible: "qcom,sm8650-ufshc", variant: UfsQcomVariant::Sm8550 });
    table.push(OfEntry { compatible: "qcom,sa8255p-ufshc", variant: UfsQcomVariant::Sa8255p });
    assert(table@ =~= of_table());
    table
}

/// The controller is not brought up: no variant is supported yet.
pub fn probe(_variant: Option<UfsQcomVariant>) -> (r: Result<(), Error>)
    ensures
        r == Err::<(), Error>(Error::ENODEV),
{
    Err(Error::ENODEV)
}

/// Which compatible strings the driver matches, and for which variant.
pub proof fn law_matched_strings(i: int)
    requires
        0 <= i < of_table().len(),
    ensures
        of_table().len() == 4,
        i == 0 <==> of_table()[i].variant is Generic,
        i == 1 || i == 2 <==> of_table()[i].variant is Sm8550,
        i == 3 <==> of_table()[i].variant is Sa8255p,
        i == 0 ==> of_table()[i].compatible == "qcom,ufshc",
        i == 1 ==> of_table()[i].compatible == "qcom,sm8550-ufshc",
        i == 2 ==> of_table()[i].compatible == "qcom,sm8650-ufshc",
        i == 3 ==> of_table()[i].compatible == "qcom,sa8255p-ufshc",
{
}

} // verus!
