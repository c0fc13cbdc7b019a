# vrc_keyboard

Drives a VRChat avatar from the keyboard over OSC. The verified library in
`src/` holds the decisions: the pending avatar input and how keys and
commands change it (`input`), the OSC addresses, socket addresses and
start-up order (`osc`), the per-frame decisions of the window (`ui`), the
outside programs of the build tasks (`commands`) and the choice of locale
(`lib.rs`). `app/` is the program around it: the window, the UDP socket, the
global handlers and the OSC encoding of the float values.
