//! What a caller asks for: a scale factor and one partition out of a number
//! of partitions.

use crate::error::LoadError;
use crate::text::{decimal, push_decimal};
use vstd::prelude::*;
use vstd::string::*;

verus! {

/// A scale factor, held as the bit pattern of an IEEE 754 double.
///
/// The crate never computes with the number; it only has to tell zero from
/// everything else and to hand the value on unchanged.
#[derive(Clone, Copy, Debug, PartialEq, Eq, Structural)]
pub struct ScaleFactor {
    pub bits: u64,
}

impl ScaleFactor {
    /// Whether the pattern is one of the two zeros of the format, `+0.0` or
    /// `-0.0`. These are exactly the doubles that compare equal to zero.
    pub open spec fn spec_is_zero(&self) -> bool {
        self.bits == 0 || self.bits == 0x8000_0000_0000_0000
    }

    /// The scale factor with the given bit pattern.
    pub fn from_bits(bits: u64) -> (scale: ScaleFactor)
        ensures
            scale.bits == bits,
    {
        ScaleFactor { bits }
    }

    /// The bit pattern of the scale factor.
    pub fn to_bits(&self) -> (bits: u64)
        ensures
            bits == self.bits,
    {
        self.bits
    }

    /// Whether the scale factor is zero, which asks for a reset without a
    /// load.
    #[verifier::when_used_as_spec(spec_is_zero)]
    pub fn is_zero(&self) -> (zero: bool)
        ensures
            zero == self.spec_is_zero(),
    {
        self.bits == 0 || self.bits == 0x8000_0000_0000_0000
    }
}

/// A request to load one partition of the data set at a scale factor.
#[derive(Clone, Copy, Debug, PartialEq, Eq, Structural)]
pub struct LoadRequest {
    /// Size of the data set; zero asks for a reset only.
    pub scale: ScaleFactor,
    /// Number of partitions that the data set is split into.
    pub children: i64,
    /// Index of the partition to load, counted from zero.
    pub step: i64,
}

/// Whether `step` is the index of one of `children` partitions.
pub open spec fn valid_partition(children: int, step: int) -> bool {
    children >= 1 && 0 <= step < children
}

/// One partition out of a number of partitions, counted from one.
#[derive(Clone, Copy, Debug, PartialEq, Eq, Structural)]
pub struct Partition {
    /// Number of the partition, from one to `count`.
    pub number: i64,
    /// Number of partitions.
    pub count: i64,
}

impl Partition {
    /// A partition number lies between one and the partition count.
    pub open spec fn wf(self) -> bool {
        1 <= self.number <= self.count
    }

    /// The partition of index `step` out of `children` partitions.
    pub open spec fn of(children: int, step: int) -> Partition {
        Partition { number: (step + 1) as i64, count: children as i64 }
    }

    /// Whether the row generators can take the partition: it is one, and
    /// its count is within the 32 bits in which they count partitions.
    pub open spec fn fits_generators(self) -> bool {
        self.wf() && self.count <= i32::MAX
    }

    /// The partition number and count as the row generators take them.
    ///
    /// The generators count partitions in 32 bits. A partition within that
    /// range is handed on as it is. For any other there is nothing to hand
    /// on: its rows cannot be generated, and no other partition's rows
    /// stand in for them.
    pub fn generator_arguments(&self) -> (arguments: Option<(i32, i32)>)
        ensures
            arguments is Some <==> self.fits_generators(),
            arguments matches Some((part, parts)) ==> part == self.number && parts == self.count,
    {
        if 1 <= self.number && self.number <= self.count && self.count <= 2147483647 {
            Some((self.number as i32, self.count as i32))
        } else {
            None
        }
    }
}

/// Checks that `step` is the index of one of `children` partitions and
/// gives the partition, counted from one.
pub fn validate_partition(children: i64, step: i64) -> (checked: Result<Partition, LoadError>)
    ensures
        valid_partition(children as int, step as int) ==> checked == Ok::<Partition, LoadError>(
            Partition::of(children as int, step as int),
        ),
        !valid_partition(children as int, step as int) ==> checked == Err::<Partition, LoadError>(
            (LoadError::InvalidPartitionSpec { children, step }),
        ),
        checked matches Ok(partition) ==> partition.wf() && partition.number == step + 1
            && partition.count == children,
{
    if children < 1 || step < 0 || step >= children {
        Err(LoadError::InvalidPartitionSpec { children, step })
    } else {
        Ok(Partition { number: step + 1, count: children })
    }
}

/// What a load that went through has done.
#[derive(Clone, Copy, Debug, PartialEq, Eq, Structural)]
pub enum LoadSummary {
    /// The tables were emptied and nothing was loaded.
    Truncated,
    /// The tables hold the rows of this partition.
    Loaded { partition: Partition },
}

impl LoadSummary {
    /// The sentence that reports the load; `scale_text` is the scale factor
    /// as it is to be shown.
    pub open spec fn spec_message(self, scale_text: Seq<char>) -> Seq<char> {
        match self {
            LoadSummary::Truncated => "TPC-H tables truncated"@,
            LoadSummary::Loaded { partition } => "TPC-H SF="@ + scale_text + " loaded (part "@
                + decimal(partition.number as int) + "/"@ + decimal(partition.count as int) + ")"@,
        }
    }

    /// The sentence that reports the load; `scale_text` is the scale factor
    /// as it is to be shown.
    pub fn message(&self, scale_text: &str) -> (text: String)
        ensures
            text@ == self.spec_message(scale_text@),
    {
        match *self {
            LoadSummary::Truncated => String::from_str("TPC-H tables truncated"),
            LoadSummary::Loaded { partition } => {
                let mut text = String::from_str("TPC-H SF=");
                text.append(scale_text);
                text.append(" loaded (part ");
                push_decimal(&mut text, partition.number);
                text.append("/");
                push_decimal(&mut text, partition.count);
                text.append(")");
                text
            },
        }
    }
}

} // verus!
