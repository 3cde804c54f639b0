use vstd::prelude::*;

use crate::network::ApiError;
use crate::text::{ascii_chars, ascii_string};

verus! {

/// Length in bytes of the salt sent in the first pairing request.
pub const SALT_LENGTH: usize = 16;
/// Length in bytes of the challenges exchanged while pairing.
pub const CHALLENGE_LENGTH: usize = 16;

/// A pin which contains four values in the range 0..10
#[derive(Clone, Copy)]
pub struct PairPin {
    numbers: [u8; 4],
}

/// Every digit of a pin lies in 0..10.
pub open spec fn digits_valid(numbers: Seq<u8>) -> bool {
    numbers.len() == 4 && forall|i: int| 0 <= i < 4 ==> #[trigger] numbers[i] < 10
}

impl View for PairPin {
    type V = Seq<u8>;

    closed spec fn view(&self) -> Seq<u8> {
        self.numbers@
    }
}

impl PairPin {
    #[verifier::type_invariant]
    closed spec fn wf(self) -> bool {
        digits_valid(self.numbers@)
    }

    /// Builds a pin from four digits; `None` when any of them is 10 or more.
    pub fn from_array(numbers: [u8; 4]) -> (res: Option<Self>)
        ensures
            res is Some <==> digits_valid(numbers@),
            res matches Some(pin) ==> pin@ == numbers@,
    {
        if numbers[0] < 10 && numbers[1] < 10 && numbers[2] < 10 && numbers[3] < 10 {
            let pin = PairPin { numbers };
            Some(pin)
        } else {
            None
        }
    }

    /// The digit at `index`, or `None` past the fourth digit.
    pub fn n(&self, index: usize) -> (res: Option<u8>)
        ensures
            index < 4 ==> res == Some(self@[index as int]),
            index >= 4 ==> res is None,
            res matches Some(d) ==> d < 10,
    {
        proof { use_type_invariant(self); }
        if index < 4 {
            Some(self.numbers[index])
        } else {
            None
        }
    }

    /// The first digit.
    pub fn n1(&self) -> (res: u8)
        ensures
            res == self@[0],
            res < 10,
    {
        proof { use_type_invariant(self); }
        self.numbers[0]
    }

    /// The second digit.
    pub fn n2(&self) -> (res: u8)
        ensures
            res == self@[1],
            res < 10,
    {
        proof { use_type_invariant(self); }
        self.numbers[1]
    }

    /// The third digit.
    pub fn n3(&self) -> (res: u8)
        ensures
            res == self@[2],
            res < 10,
    {
        proof { use_type_invariant(self); }
        self.numbers[2]
    }

    /// The fourth digit.
    pub fn n4(&self) -> (res: u8)
        ensures
            res == self@[3],
            res < 10,
    {
        proof { use_type_invariant(self); }
        self.numbers[3]
    }

    /// The four digits in order.
    pub fn array(&self) -> (res: [u8; 4])
        ensures
            res@ == self@,
            digits_valid(res@),
    {
        proof { use_type_invariant(self); }
        self.numbers
    }

    /// A pin of four random digits.
    pub fn random() -> (res: PairPin)
        ensures
            digits_valid(res@),
    {
        let numbers: [u8; 4] = [random_digit(), random_digit(), random_digit(), random_digit()];
        let pin = PairPin { numbers };
        proof { use_type_invariant(&pin); }
        pin
    }

    /// The four digits as text, as the pin is entered on the host.
    pub fn to_string(&self) -> (res: String)
        ensures
            res@ == ascii_chars(spec_pin_text(self@)),
    {
        proof { use_type_invariant(self); }
        let digits: Vec<u8> = vec![
            self.numbers[0] + 48,
            self.numbers[1] + 48,
            self.numbers[2] + 48,
            self.numbers[3] + 48,
        ];
        assert(digits@ =~= spec_pin_text(self@));
        ascii_string(digits)
    }
}

/// The text of a pin: its digits as ASCII characters.
pub open spec fn spec_pin_text(digits: Seq<u8>) -> Seq<u8> {
    digits.map_values(|d: u8| (d + 48) as u8)
}

/// `rand::random_range(0..10)`: a random digit.
#[verifier::external_body]
fn random_digit() -> (res: u8)
    ensures
        res < 10,
{
    rand::random_range(0..10u8)
}

} // verus!

verus! {

/// Why pairing with a host failed.
#[derive(Debug, Clone)]
pub enum PairError<E> {
    /// A request to the host failed or its answer could not be read.
    Api(ApiError<E>),
    /// The client's private key could not be read.
    ClientPrivateKeyPem,
    /// The client's certificate could not be read.
    ClientCertificateError,
    /// The client's private key is no RSA key.
    IncorrectPrivateKey,
    /// A ciphertext was no whole number of AES blocks.
    Decrypt,
    /// The host's certificate is no PEM document.
    ServerCertificatePem,
    /// The host's certificate is no X.509 certificate.
    ServerCertificateParse,
    /// The pin was wrong.
    IncorrectPin,
    /// Another pairing procedure is running on the host.
    AlreadyInProgress,
    /// Pairing failed.
    Failed,
}

} // verus!
