//! Parameters.

use crate::cubism_v1::moc::objects::{decode_parameters, parsed_parameters};
use crate::errors::L2Error;
use crate::views::views;
use vstd::prelude::*;

verus! {

/// A parameter of a model. The three values are the bit patterns of 32-bit
/// floats.
#[derive(Debug, PartialEq)]
pub struct Parameter {
    /// The name of the parameter
    pub name: String,
    /// Its least value
    pub min_value: u32,
    /// Its greatest value
    pub max_value: u32,
    /// Its default value
    pub default_value: u32,
}

/// What a [`Parameter`] holds.
pub struct ParameterView {
    pub name: Seq<char>,
    pub min_value: u32,
    pub max_value: u32,
    pub default_value: u32,
}

impl View for Parameter {
    type V = ParameterView;

    open spec fn view(&self) -> ParameterView {
        ParameterView {
            name: self.name@,
            min_value: self.min_value,
            max_value: self.max_value,
            default_value: self.default_value,
        }
    }
}

/// The parameters of a file.
#[derive(Debug, PartialEq)]
pub struct ParamList {
    params: Vec<Parameter>,
}

/// The list of parameters at `offset`, or the failure of an offset behind
/// the end.
pub open spec fn parameters_at(bytes: Seq<u8>, offset: int) -> Result<Seq<ParameterView>, L2Error> {
    if offset > bytes.len() {
        Err(L2Error::OutOfBounds { have: 0, need: (offset - bytes.len()) as u64 })
    } else {
        match parsed_parameters(bytes, offset) {
            Ok((parameters, _)) => Ok(parameters),
            Err(e) => Err(e),
        }
    }
}

impl View for ParamList {
    type V = Seq<ParameterView>;

    closed spec fn view(&self) -> Seq<ParameterView> {
        views(self.params@)
    }
}

impl ParamList {
    /// Reads the list of parameters that lies at `offset` of `data`.
    pub fn parse(data: &[u8], offset: usize) -> (r: Result<ParamList, L2Error>)
        ensures
            match r {
                Ok(list) => parameters_at(data@, offset as int) == Ok::<
                    Seq<ParameterView>,
                    L2Error,
                >(list@),
                Err(e) => parameters_at(data@, offset as int) == Err::<
                    Seq<ParameterView>,
                    L2Error,
                >(e),
            },
    {
        if offset > data.len() {
            return Err(L2Error::OutOfBounds { have: 0, need: (offset - data.len()) as u64 });
        }
        let (params, _) = decode_parameters(data, offset)?;
        Ok(ParamList { params })
    }

    /// The parameters of the list, in its order.
    pub fn parameters(&self) -> (parameters: &[Parameter])
        ensures
            views(parameters@) == self@,
    {
        self.params.as_slice()
    }
}

} // verus!
