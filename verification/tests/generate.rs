use autorand::Random;
use autorand::fixtures::{C, E, U};

#[test]
fn generate() {
    <U<u8, i32, i64>>::random();
    <C<(i16, i8, u32), [u8; 32], String>>::random();
    <E<Vec<u8>, char, bool>>::random();
}
