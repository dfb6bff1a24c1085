use vstd::prelude::*;

verus! {

/// Splits a spot address into the three levels the multiplexer's address
/// bus takes, least significant bit first. The sensor scanner drives all
/// eight combinations in turn and samples the shared occupancy line after
/// each, hiding the bit decomposition from its callers.
pub fn convert_address_to_levels(address: u8) -> (r: (bool, bool, bool))
    ensures
        r.0 == (address & 0b001 != 0),
        r.1 == (address & 0b010 != 0),
        r.2 == (address & 0b100 != 0),
        address < 8 ==> address == (if r.0 { 1int } else { 0int }) + 2 * (if r.1 {
            1int
        } else {
            0int
        }) + 4 * (if r.2 { 1int } else { 0int }),
{
    let address_1 = address & 0b001 != 0;
    let address_2 = address & 0b010 != 0;
    let address_3 = address & 0b100 != 0;
    proof {
        assert(address < 8 ==> address == (if address & 0b001 != 0 { 1int } else { 0int }) + 2 * (
        if address & 0b010 != 0 { 1int } else { 0int }) + 4 * (if address & 0b100 != 0 {
            1int
        } else {
            0int
        })) by (bit_vector);
    }
    (address_1, address_2, address_3)
}

} // verus!
