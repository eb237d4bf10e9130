# mac_touchpad_core

Gesture core of MacTouchpad, a Windows utility that brings Mac-style
touchpad gestures to precision touchpads, written in Verus.

`src/` is the verified library: reassembly of split contact reports, HID
frame assembly, the finger trust quarantine, tap, edge-slide and drag
decisions, frame routing and recovery timing of the gesture engine, the
smooth-scroll policy chain, the mouse hook's decisions, shortcut naming and
recording, version comparison and update selection, icon encoding, and the
debug log. Each public function states its result in its contract; the
`lemma_*` proof functions state the properties that span calls.

`app/` is the Windows application around it: raw input, SendInput, WMI and
DDC/CI brightness, the hook and polling threads, settings persistence, the
Tauri commands, and the floating-point recognizers (swipe, pinch, two-finger
swipe, cursor acceleration, smooth-scroll physics).
