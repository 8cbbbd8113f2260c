# gfn_streamer

The decisions behind a native game streaming client, written and verified in Verus:

- `input`, `keys`, `controls`: input packets, key codes and the window's event loop
- `signaling`: the messages, session descriptions and negotiation of a stream
- `decoder`, `vulkan_decoder`: RTP payloads to NAL units, pictures to planes, device set-up
- `renderer`, `overlay`, `stats`, `stream`: what is shown, and the figures behind it
- `audio`: output configuration and the way of the samples to the device
- `cursor`: capturing and releasing the native cursor
- `text`, `wire`, `byte_buffer`: what the others are built on

`app/` holds the program around the library: the window, the GPU, the sound device, the
network and the operating system's cursor calls.
