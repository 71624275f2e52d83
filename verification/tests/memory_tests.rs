use rustyboy::memory::Memory;

#[test]
fn is_empty() {
    let memory = Memory::new();
    assert!(memory.map.iter().all(|x| *x == 0));
}

#[test]
fn resets() {
    let mut memory = Memory::new();
    memory.map[1] = 3;
    memory.reset();
    assert!(memory.map.iter().all(|x| *x == 0));
}

#[test]
fn sets_a_byte() {
    let mut memory = Memory::new();
    memory.set(0xFFFF, 7);
    assert_eq!(memory.map[0xFFFF], 7);
    assert_eq!(memory.map[0xFFFE], 0);
}
