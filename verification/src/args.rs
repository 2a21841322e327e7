//! The arguments of a run.

use vstd::prelude::*;
use crate::error::ArgumentError;

verus! {

/// What the command line of a run asks for.
#[derive(Clone, Debug)]
pub struct Arguments {
    /// Path of the picture to render.
    pub path: String,
    /// The scale factor as it was written, where one was given.
    pub scale: Option<String>,
}

/// Reads the command line of a run, which starts with the name of the
/// program. The first argument is the path of the picture and must be there;
/// the second, if there is one, is the scale factor. Further arguments are
/// ignored.
pub fn parse_arguments(line: &Vec<String>) -> (parsed: Result<Arguments, ArgumentError>)
    ensures
        match parsed {
            Ok(arguments) => {
                &&& line@.len() >= 2
                &&& arguments.path == line@[1]
                &&& arguments.scale == if line@.len() >= 3 {
                    Some(line@[2])
                } else {
                    None
                }
            },
            Err(e) => line@.len() < 2 && e == ArgumentError::MissingArgument,
        },
{
    if line.len() < 2 {
        return Err(ArgumentError::MissingArgument);
    }
    let path = line[1].clone();
    let scale = if line.len() >= 3 {
        Some(line[2].clone())
    } else {
        None
    };
    Ok(Arguments { path, scale })
}

} // verus!
