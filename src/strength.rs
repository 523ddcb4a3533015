use vstd::prelude::*;

verus! {

/// The score, from 0 to 4, that zxcvbn gives a password with no user inputs
/// when the clock reads the given year (dates and years near it score lower).
pub uninterp spec fn zxcvbn_score(password: Seq<char>, year: int) -> u8;

/// Relies on zxcvbn::zxcvbn with no user inputs and `Entropy::score`: a
/// `Score` from `Zero` to `Four`, taken as its number, which depends on the
/// password and on the current year that zxcvbn reads from the clock; an empty
/// password scores `Zero`.
#[verifier::external_body]
fn zxcvbn_estimate(password: &str) -> (r: u8)
    ensures
        exists|year: int| r == #[trigger] zxcvbn_score(password@, year),
        r <= 4,
        password@.len() == 0 ==> r == 0,
{
    u8::from(zxcvbn::zxcvbn(password, &[]).score())
}

/// Estimates how hard the password is to crack: 0 (weakest) to 4 (strongest),
/// as zxcvbn scores it in the current year.
pub fn check_password_strength(password: String) -> (r: u8)
    ensures
        exists|year: int| r == #[trigger] zxcvbn_score(password@, year),
        r <= 4,
        password@.len() == 0 ==> r == 0,
{
    zxcvbn_estimate(password.as_str())
}

} // verus!
