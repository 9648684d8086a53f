//! Case analysis on a byte

use vstd::prelude::*;

verus! {

/// A byte is one of its 256 values.
pub proof fn lemma_u8_cases(x: u8)
    ensures
        x == 0u8 ||
        x == 1u8 ||
        x == 2u8 ||
        x == 3u8 ||
        x == 4u8 ||
        x == 5u8 ||
        x == 6u8 ||
        x == 7u8 ||
        x == 8u8 ||
        x == 9u8 ||
        x == 10u8 ||
        x == 11u8 ||
        x == 12u8 ||
        x == 13u8 ||
        x == 14u8 ||
        x == 15u8 ||
        x == 16u8 ||
        x == 17u8 ||
        x == 18u8 ||
        x == 19u8 ||
        x == 20u8 ||
        x == 21u8 ||
        x == 22u8 ||
        x == 23u8 ||
        x == 24u8 ||
        x == 25u8 ||
        x == 26u8 ||
        x == 27u8 ||
        x == 28u8 ||
        x == 29u8 ||
        x == 30u8 ||
        x == 31u8 ||
        x == 32u8 ||
        x == 33u8 ||
        x == 34u8 ||
        x == 35u8 ||
        x == 36u8 ||
        x == 37u8 ||
        x == 38u8 ||
        x == 39u8 ||
        x == 40u8 ||
        x == 41u8 ||
        x == 42u8 ||
        x == 43u8 ||
        x == 44u8 ||
        x == 45u8 ||
        x == 46u8 ||
        x == 47u8 ||
        x == 48u8 ||
        x == 49u8 ||
        x == 50u8 ||
        x == 51u8 ||
        x == 52u8 ||
        x == 53u8 ||
        x == 54u8 ||
        x == 55u8 ||
        x == 56u8 ||
        x == 57u8 ||
        x == 58u8 ||
        x == 59u8 ||
        x == 60u8 ||
        x == 61u8 ||
        x == 62u8 ||
        x == 63u8 ||
        x == 64u8 ||
        x == 65u8 ||
        x == 66u8 ||
        x == 67u8 ||
        x == 68u8 ||
        x == 69u8 ||
        x == 70u8 ||
        x == 71u8 ||
        x == 72u8 ||
        x == 73u8 ||
        x == 74u8 ||
        x == 75u8 ||
        x == 76u8 ||
        x == 77u8 ||
        x == 78u8 ||
        x == 79u8 ||
        x == 80u8 ||
        x == 81u8 ||
        x == 82u8 ||
        x == 83u8 ||
        x == 84u8 ||
        x == 85u8 ||
        x == 86u8 ||
        x == 87u8 ||
        x == 88u8 ||
        x == 89u8 ||
        x == 90u8 ||
        x == 91u8 ||
        x == 92u8 ||
        x == 93u8 ||
        x == 94u8 ||
        x == 95u8 ||
        x == 96u8 ||
        x == 97u8 ||
        x == 98u8 ||
        x == 99u8 ||
        x == 100u8 ||
        x == 101u8 ||
        x == 102u8 ||
        x == 103u8 ||
        x == 104u8 ||
        x == 105u8 ||
        x == 106u8 ||
        x == 107u8 ||
        x == 108u8 ||
        x == 109u8 ||
        x == 110u8 ||
        x == 111u8 ||
        x == 112u8 ||
        x == 113u8 ||
        x == 114u8 ||
        x == 115u8 ||
        x == 116u8 ||
        x == 117u8 ||
        x == 118u8 ||
        x == 119u8 ||
        x == 120u8 ||
        x == 121u8 ||
        x == 122u8 ||
        x == 123u8 ||
        x == 124u8 ||
        x == 125u8 ||
        x == 126u8 ||
        x == 127u8 ||
        x == 128u8 ||
        x == 129u8 ||
        x == 130u8 ||
        x == 131u8 ||
        x == 132u8 ||
        x == 133u8 ||
        x == 134u8 ||
        x == 135u8 ||
        x == 136u8 ||
        x == 137u8 ||
        x == 138u8 ||
        x == 139u8 ||
        x == 140u8 ||
        x == 141u8 ||
        x == 142u8 ||
        x == 143u8 ||
        x == 144u8 ||
        x == 145u8 ||
        x == 146u8 ||
        x == 147u8 ||
        x == 148u8 ||
        x == 149u8 ||
        x == 150u8 ||
        x == 151u8 ||
        x == 152u8 ||
        x == 153u8 ||
        x == 154u8 ||
        x == 155u8 ||
        x == 156u8 ||
        x == 157u8 ||
        x == 158u8 ||
        x == 159u8 ||
        x == 160u8 ||
        x == 161u8 ||
        x == 162u8 ||
        x == 163u8 ||
        x == 164u8 ||
        x == 165u8 ||
        x == 166u8 ||
        x == 167u8 ||
        x == 168u8 ||
        x == 169u8 ||
        x == 170u8 ||
        x == 171u8 ||
        x == 172u8 ||
        x == 173u8 ||
        x == 174u8 ||
        x == 175u8 ||
        x == 176u8 ||
        x == 177u8 ||
        x == 178u8 ||
        x == 179u8 ||
        x == 180u8 ||
        x == 181u8 ||
        x == 182u8 ||
        x == 183u8 ||
        x == 184u8 ||
        x == 185u8 ||
        x == 186u8 ||
        x == 187u8 ||
        x == 188u8 ||
        x == 189u8 ||
        x == 190u8 ||
        x == 191u8 ||
        x == 192u8 ||
        x == 193u8 ||
        x == 194u8 ||
        x == 195u8 ||
        x == 196u8 ||
        x == 197u8 ||
        x == 198u8 ||
        x == 199u8 ||
        x == 200u8 ||
        x == 201u8 ||
        x == 202u8 ||
        x == 203u8 ||
        x == 204u8 ||
        x == 205u8 ||
        x == 206u8 ||
        x == 207u8 ||
        x == 208u8 ||
        x == 209u8 ||
        x == 210u8 ||
        x == 211u8 ||
        x == 212u8 ||
        x == 213u8 ||
        x == 214u8 ||
        x == 215u8 ||
        x == 216u8 ||
        x == 217u8 ||
        x == 218u8 ||
        x == 219u8 ||
        x == 220u8 ||
        x == 221u8 ||
        x == 222u8 ||
        x == 223u8 ||
        x == 224u8 ||
        x == 225u8 ||
        x == 226u8 ||
        x == 227u8 ||
        x == 228u8 ||
        x == 229u8 ||
        x == 230u8 ||
        x == 231u8 ||
        x == 232u8 ||
        x == 233u8 ||
        x == 234u8 ||
        x == 235u8 ||
        x == 236u8 ||
        x == 237u8 ||
        x == 238u8 ||
        x == 239u8 ||
        x == 240u8 ||
        x == 241u8 ||
        x == 242u8 ||
        x == 243u8 ||
        x == 244u8 ||
        x == 245u8 ||
        x == 246u8 ||
        x == 247u8 ||
        x == 248u8 ||
        x == 249u8 ||
        x == 250u8 ||
        x == 251u8 ||
        x == 252u8 ||
        x == 253u8 ||
        x == 254u8 ||
        x == 255u8,
{
    assert(x == 0u8 || x == 1u8 || x == 2u8 || x == 3u8 || x == 4u8 || x == 5u8 || x == 6u8 || x == 7u8 || x == 8u8 || x == 9u8 || x == 10u8 || x == 11u8 || x == 12u8 || x == 13u8 || x == 14u8 || x == 15u8 || x == 16u8 || x == 17u8 || x == 18u8 || x == 19u8 || x == 20u8 || x == 21u8 || x == 22u8 || x == 23u8 || x == 24u8 || x == 25u8 || x == 26u8 || x == 27u8 || x == 28u8 || x == 29u8 || x == 30u8 || x == 31u8 || x == 32u8 || x == 33u8 || x == 34u8 || x == 35u8 || x == 36u8 || x == 37u8 || x == 38u8 || x == 39u8 || x == 40u8 || x == 41u8 || x == 42u8 || x == 43u8 || x == 44u8 || x == 45u8 || x == 46u8 || x == 47u8 || x == 48u8 || x == 49u8 || x == 50u8 || x == 51u8 || x == 52u8 || x == 53u8 || x == 54u8 || x == 55u8 || x == 56u8 || x == 57u8 || x == 58u8 || x == 59u8 || x == 60u8 || x == 61u8 || x == 62u8 || x == 63u8 || x == 64u8 || x == 65u8 || x == 66u8 || x == 67u8 || x == 68u8 || x == 69u8 || x == 70u8 || x == 71u8 || x == 72u8 || x == 73u8 || x == 74u8 || x == 75u8 || x == 76u8 || x == 77u8 || x == 78u8 || x == 79u8 || x == 80u8 || x == 81u8 || x == 82u8 || x == 83u8 || x == 84u8 || x == 85u8 || x == 86u8 || x == 87u8 || x == 88u8 || x == 89u8 || x == 90u8 || x == 91u8 || x == 92u8 || x == 93u8 || x == 94u8 || x == 95u8 || x == 96u8 || x == 97u8 || x == 98u8 || x == 99u8 || x == 100u8 || x == 101u8 || x == 102u8 || x == 103u8 || x == 104u8 || x == 105u8 || x == 106u8 || x == 107u8 || x == 108u8 || x == 109u8 || x == 110u8 || x == 111u8 || x == 112u8 || x == 113u8 || x == 114u8 || x == 115u8 || x == 116u8 || x == 117u8 || x == 118u8 || x == 119u8 || x == 120u8 || x == 121u8 || x == 122u8 || x == 123u8 || x == 124u8 || x == 125u8 || x == 126u8 || x == 127u8 || x == 128u8 || x == 129u8 || x == 130u8 || x == 131u8 || x == 132u8 || x == 133u8 || x == 134u8 || x == 135u8 || x == 136u8 || x == 137u8 || x == 138u8 || x == 139u8 || x == 140u8 || x == 141u8 || x == 142u8 || x == 143u8 || x == 144u8 || x == 145u8 || x == 146u8 || x == 147u8 || x == 148u8 || x == 149u8 || x == 150u8 || x == 151u8 || x == 152u8 || x == 153u8 || x == 154u8 || x == 155u8 || x == 156u8 || x == 157u8 || x == 158u8 || x == 159u8 || x == 160u8 || x == 161u8 || x == 162u8 || x == 163u8 || x == 164u8 || x == 165u8 || x == 166u8 || x == 167u8 || x == 168u8 || x == 169u8 || x == 170u8 || x == 171u8 || x == 172u8 || x == 173u8 || x == 174u8 || x == 175u8 || x == 176u8 || x == 177u8 || x == 178u8 || x == 179u8 || x == 180u8 || x == 181u8 || x == 182u8 || x == 183u8 || x == 184u8 || x == 185u8 || x == 186u8 || x == 187u8 || x == 188u8 || x == 189u8 || x == 190u8 || x == 191u8 || x == 192u8 || x == 193u8 || x == 194u8 || x == 195u8 || x == 196u8 || x == 197u8 || x == 198u8 || x == 199u8 || x == 200u8 || x == 201u8 || x == 202u8 || x == 203u8 || x == 204u8 || x == 205u8 || x == 206u8 || x == 207u8 || x == 208u8 || x == 209u8 || x == 210u8 || x == 211u8 || x == 212u8 || x == 213u8 || x == 214u8 || x == 215u8 || x == 216u8 || x == 217u8 || x == 218u8 || x == 219u8 || x == 220u8 || x == 221u8 || x == 222u8 || x == 223u8 || x == 224u8 || x == 225u8 || x == 226u8 || x == 227u8 || x == 228u8 || x == 229u8 || x == 230u8 || x == 231u8 || x == 232u8 || x == 233u8 || x == 234u8 || x == 235u8 || x == 236u8 || x == 237u8 || x == 238u8 || x == 239u8 || x == 240u8 || x == 241u8 || x == 242u8 || x == 243u8 || x == 244u8 || x == 245u8 || x == 246u8 || x == 247u8 || x == 248u8 || x == 249u8 || x == 250u8 || x == 251u8 || x == 252u8 || x == 253u8 || x == 254u8 || x == 255u8) by (bit_vector);
}

} // verus!
