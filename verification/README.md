# demo_panel

The verified core of a desktop telemetry panel in which a 3D renderer runs
as a separate process, hands its frames to the host through a shared-memory
region, and takes commands over a line-based IPC channel, while a web panel
talks JSON-RPC to a small server.

`src/` is the library, proved with Verus:

- `shm`, `bytes`, `frame`: the layout of the shared-memory region (control
  block and two frame buffers), the little-endian codecs, the frame writer
  that cuts padded readback rows down, and the reader that turns the ready
  frame into a packet for the panel;
- `protocol`, `ipc`: the IPC messages, the framing of IPC lines among log
  output, and the renderer's command queues;
- `proto`, `session`, `signaling`: the JSON-RPC request handling, the
  server's socket session (the snapshot it opens with, what it does on each
  event, the updates a tick sends), and the signaling replies of the server;
- `cube`, `panel`, `labels`, `history`, `clock`, `input`: sensor data as
  the panel keeps it and the notifications that change it, the chart shown
  and the numbering of the panel's requests, card and chart text, bounded
  histories, clock text, keyboard input;
- `event`, `names`, `browser`, `frame_buffer`, `text`: timed waits, POSIX
  object names, browser window bookkeeping, the in-process double buffer,
  and string helpers.

Floating-point values cross the library as their bit patterns.

`app/` holds what the library leaves out: operating-system objects, JSON
serialization, processes and threads, and floating-point geometry.
