# solarity_runtime

Verified decision logic of the Solarity game client's runtime, written in
Verus. Each module holds the rules of one runtime owner as plain values with
`requires`/`ensures` contracts, and the properties that span its operations as
public proof functions (`law_*`):

- `glue_session`, `glue_frames`, `glue_texture_prewarm`, `glue`: what the
  login and character screens publish, the double-buffered Glue frames, and
  the covered texture prewarm.
- `input_routing`, `presentation`, `frame_wait`: which owner takes a platform
  event, the route of each application frame, and how frame work is awaited.
- `frame_profile`: slow-frame phase attribution and bounded report windows.
- `cinematic`: the movie frame clock.
- `area_triggers`, `world_transfer`, `gameplay`, `retirement`: world-session
  bookkeeping.
- `game_object`, `game_object_behavior`, `transport`, `entity_opacity`,
  `model_cache`: GameObject resources, behavior and transport decisions.
- `character_directory`, `camera_profile`, `loading_screens`, `environment`,
  `developer_console`, `world_benchmark`, `version`: catalog projections and
  smaller owners.

`app/` is the process side: the clock and environment, logging, process-wide
counters, floating-point presentation values and error types with `Display`.
