//! External tool requirements.  Probing the system for a tool is the front
//! end's part; deciding what is missing and what to say about it is here.

use vstd::prelude::*;

use crate::error::SearchError;

verus! {

/// External tool dependencies required by the program.
pub struct Dependencies {
    pub ripgrep: bool,
}

/// What to run to install the line search tool.
pub open spec fn ripgrep_instructions() -> Seq<char> {
    " ripgrep (rg) is required to run this program.\nInstall ripgrep (rg) with your package manager or by running:\ncargo install ripgrep\n"@
}

fn get_ripgrep_install_instructions() -> (r: String)
    ensures
        r@ == ripgrep_instructions(),
{
    String::from_str(
        " ripgrep (rg) is required to run this program.\nInstall ripgrep (rg) with your package manager or by running:\ncargo install ripgrep\n",
    )
}

impl Dependencies {
    /// Checks that every required tool was found: the probed record comes
    /// back unchanged, or the error names what is missing and how to get it.
    pub fn check(&self) -> (r: Result<Dependencies, SearchError>)
        ensures
            self.ripgrep ==> (r matches Ok(d) && d.ripgrep),
            !self.ripgrep ==> (r matches Err(SearchError::MissingDependency {
                tool,
                install_instructions,
            }) && tool@ == "ripgrep (rg)"@ && install_instructions@ == "Install missing tools:\n"@
                + ripgrep_instructions()),
    {
        let deps = Dependencies { ripgrep: self.ripgrep };
        if !deps.all_present() {
            let missing = deps.missing_tools();
            let mut tool = String::new();
            if missing.len() > 0 {
                tool = missing[0].clone();
            }
            return Err(
                SearchError::MissingDependency {
                    tool,
                    install_instructions: deps.install_instructions(),
                },
            );
        }
        Ok(deps)
    }

    /// Whether all required tools are installed.
    pub fn all_present(&self) -> (r: bool)
        ensures
            r == self.ripgrep,
    {
        self.ripgrep
    }

    /// The missing tools, by name.
    pub fn missing_tools(&self) -> (r: Vec<String>)
        ensures
            self.ripgrep ==> r@.len() == 0,
            !self.ripgrep ==> r@.len() == 1 && r@[0]@ == "ripgrep (rg)"@,
    {
        let mut missing: Vec<String> = Vec::new();
        if !self.ripgrep {
            missing.push(String::from_str("ripgrep (rg)"));
        }
        missing
    }

    /// Installation instructions for whatever is missing.
    pub fn install_instructions(&self) -> (r: String)
        ensures
            self.ripgrep ==> r@ == "All required tools are installed."@,
            !self.ripgrep ==> r@ == "Install missing tools:\n"@ + ripgrep_instructions(),
    {
        if self.ripgrep {
            return String::from_str("All required tools are installed.");
        }
        let mut out = String::from_str("Install missing tools:\n");
        let instructions = get_ripgrep_install_instructions();
        out.append(instructions.as_str());
        out
    }
}

} // verus!
