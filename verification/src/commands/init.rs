//! Setting up the example tests of a problem.

use crate::error::Error;
use crate::util::digits;
use crate::util::push_digits;
use vstd::prelude::*;
use vstd::string::StringExecFns;

verus! {

/// One example test of a problem statement.
#[derive(Clone, Debug, PartialEq, Eq)]
pub struct Test {
    pub input: String,
    pub output: String,
}

/// A judge site whose problem pages hold example tests.
pub trait Site {
    /// Fetches the example tests of the problem at `url`.
    fn download_tests(url: &str) -> Vec<Test>;
}

/// The domain under which the first known site is served.
pub open spec fn codeforces_domain() -> Seq<char> {
    "codeforces.com"@
}

/// The domain under which the second known site is served.
pub open spec fn oioioi_domain() -> Seq<char> {
    "sio2.staszic.waw.pl"@
}

/// Fetches the example tests of the problem at `url`, whose domain is
/// `domain`, from the site that serves that domain: `C` for the first known
/// domain, `O` for the second. Any other domain is an error that names it.
pub fn acquire_tests<C: Site, O: Site>(url: &str, domain: &str) -> (r: Result<Vec<Test>, Error>)
    ensures
        r is Ok <==> domain@ == codeforces_domain() || domain@ == oioioi_domain(),
        r matches Err(e) ==> e matches Error::UnsupportedProblemSite(named) && named@ == domain@,
        r matches Ok(tests) ==> if domain@ == codeforces_domain() {
            call_ensures(C::download_tests, (url,), tests)
        } else {
            call_ensures(O::download_tests, (url,), tests)
        },
{
    let asked = domain.to_owned();
    if asked == "codeforces.com".to_owned() {
        Ok(C::download_tests(url))
    } else if asked == "sio2.staszic.waw.pl".to_owned() {
        Ok(O::download_tests(url))
    } else {
        Err(Error::UnsupportedProblemSite(asked))
    }
}

/// A file to write: where, and what.
#[derive(Clone, Debug, PartialEq, Eq)]
pub struct ExampleFile {
    pub path: String,
    pub content: String,
}

/// The path of the file for the example with this number, counted from 1.
pub open spec fn example_path(number: nat, extension: Seq<char>) -> Seq<char> {
    "./tests/example/"@ + digits(number) + extension
}

fn path_of(number: u64, extension: &str) -> (path: String)
    ensures
        path@ == example_path(number as nat, extension@),
{
    let mut path = "./tests/example/".to_owned();
    push_digits(&mut path, number);
    path.append(extension);
    path
}

/// The files that hold the examples: for the example at index `i`, its input
/// under the number `i + 1` with the extension `.in`, then its output under
/// the same number with the extension `.out`.
pub fn example_files(tests: &Vec<Test>) -> (files: Vec<ExampleFile>)
    ensures
        files.len() == 2 * tests.len(),
        forall|i: int|
            0 <= i < tests.len() ==> {
                &&& (#[trigger] files[2 * i]).path@ == example_path((i + 1) as nat, ".in"@)
                &&& files[2 * i].content@ == tests[i].input@
                &&& files[2 * i + 1].path@ == example_path((i + 1) as nat, ".out"@)
                &&& files[2 * i + 1].content@ == tests[i].output@
            },
{
    let mut files: Vec<ExampleFile> = Vec::new();
    let mut i: usize = 0;
    while i < tests.len()
        invariant
            i <= tests.len(),
            files.len() == 2 * i,
            forall|k: int|
                0 <= k < i ==> {
                    &&& (#[trigger] files[2 * k]).path@ == example_path((k + 1) as nat, ".in"@)
                    &&& files[2 * k].content@ == tests[k].input@
                    &&& files[2 * k + 1].path@ == example_path((k + 1) as nat, ".out"@)
                    &&& files[2 * k + 1].content@ == tests[k].output@
                },
        decreases tests.len() - i,
    {
        let number: u64 = i as u64 + 1;
        files.push(ExampleFile { path: path_of(number, ".in"), content: tests[i].input.clone() });
        files.push(ExampleFile { path: path_of(number, ".out"), content: tests[i].output.clone() });
        i += 1;
    }
    files
}

} // verus!
