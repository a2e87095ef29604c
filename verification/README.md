# kdeconnect_core

The core of a service that connects this computer with phones and other devices: who is connected,
who is paired, which packets may go where, and what has to happen next.

The library under `src/` is verified with Verus. It decides and remembers; it does not read files,
wait, or speak to the network. An event becomes a task, a task is carried out one step at a time,
and a step either changes what the core remembers, sends into a channel, or asks the program around
it to do something and to come back with the answer. Everything sent is kept account of, so that
`src/state.rs` states what a step does and that it does no more, and `src/laws/` what follows from
that for the core as a whole: devices do not disturb each other, no connection ends unnoticed or by
mistake, strangers reach no plugin, a device counts as paired only once its connection has taken the
acceptance, every task ends.

`app/` is the program around the core: it runs the tasks, reads and removes files, and sends
payloads. The device records, the transports and the single plugins are behind its `Platform` trait.

`tests/` drives the core through whole tasks with real channels.

What the library takes on trust is named where it stands: the channels of tokio, in
`src/channel.rs`, and JSON documents, which are carried through unread.
